//! A GraphQL client's decisions: the request it sends and what a response means.
//! Sending the request and reading the response are left to the caller.
use vstd::prelude::*;
use crate::text::{concat, concat3, owned};

verus! {

/// A GraphQL endpoint.
pub struct GraphQLClient {
    endpoint: String,
}

/// What the caller learned from a response: its HTTP status code and how the status
/// is written (such as `500 Internal Server Error`), the text of its `errors` member if
/// it has one, and the whole body as text.
#[derive(Debug)]
pub struct GraphQLResponse {
    pub status: u16,
    pub status_text: String,
    pub errors: Option<String>,
    pub body: String,
}

/// Whether an HTTP status is a success (`200` to `299`).
pub open spec fn is_success(status: u16) -> bool {
    200 <= status <= 299
}

impl GraphQLClient {
    pub closed spec fn url(self) -> Seq<char> {
        self.endpoint@
    }

    pub fn new(endpoint: String) -> (c: Self)
        ensures
            c.url() == endpoint@,
    {
        GraphQLClient { endpoint }
    }

    /// Where requests go.
    pub fn endpoint(&self) -> (r: &str)
        ensures
            r@ == self.url(),
    {
        self.endpoint.as_str()
    }

    /// What a response means: on a successful status, the body unless it reports
    /// errors (`GraphQL errors: <errors>`); otherwise `GraphQL HTTP error: <status> -
    /// <body>`.
    pub fn interpret_response(&self, response: GraphQLResponse) -> (r: Result<String, String>)
        ensures
            is_success(response.status) && response.errors is None ==> r == Ok::<String, String>(response.body),
            is_success(response.status) && response.errors is Some ==> (r matches Err(e)
                && e@ == "GraphQL errors: "@ + response.errors.unwrap()@),
            !is_success(response.status) ==> (r matches Err(e)
                && e@ == "GraphQL HTTP error: "@ + response.status_text@ + " - "@ + response.body@),
    {
        if 200 <= response.status && response.status <= 299 {
            match response.errors {
                Some(errors) => Err(concat("GraphQL errors: ", errors.as_str())),
                None => Ok(response.body),
            }
        } else {
            let head = concat3("GraphQL HTTP error: ", response.status_text.as_str(), " - ");
            Err(concat(head.as_str(), response.body.as_str()))
        }
    }
}

} // verus!
