//! A client of a JSON web API: where a request goes and what its answer means. Sending
//! requests is left to the caller.
use vstd::prelude::*;
use crate::text::{concat, concat3, owned};

verus! {

/// The base address the client was made with.
pub struct ApiClient {
    base_url: String,
}

/// Whether an HTTP status is a success (`200` to `299`).
pub open spec fn status_ok(status: u16) -> bool {
    200 <= status <= 299
}

impl ApiClient {
    pub closed spec fn base(self) -> Seq<char> {
        self.base_url@
    }

    /// A client of the example public API `https://jsonplaceholder.typicode.com/`.
    pub fn new() -> (c: Self)
        ensures
            c.base() == "https://jsonplaceholder.typicode.com/"@,
    {
        ApiClient { base_url: owned("https://jsonplaceholder.typicode.com/") }
    }

    /// The address of an endpoint: the base address followed by the endpoint.
    pub fn url_for(&self, endpoint: &str) -> (r: String)
        ensures
            r@ == self.base() + endpoint@,
    {
        concat(self.base_url.as_str(), endpoint)
    }

    /// What an answer means: its text on a successful status, otherwise
    /// `API request failed: <status> - <text>` (`API POST request failed: ...` for a
    /// post).
    pub fn interpret(&self, is_post: bool, status: u16, status_text: &str, body: String) -> (r: Result<String, String>)
        ensures
            status_ok(status) ==> r == Ok::<String, String>(body),
            !status_ok(status) ==> (r matches Err(e) && e@ == (if is_post {
                "API POST request failed: "@
            } else {
                "API request failed: "@
            }) + status_text@ + " - "@ + body@),
    {
        if 200 <= status && status <= 299 {
            Ok(body)
        } else {
            let head = if is_post {
                "API POST request failed: "
            } else {
                "API request failed: "
            };
            let a = concat3(head, status_text, " - ");
            Err(concat(a.as_str(), body.as_str()))
        }
    }
}

/// Counts the events recorded.
pub struct TelemetryCollector {
    event_count: u64,
}

impl TelemetryCollector {
    pub closed spec fn count(self) -> u64 {
        self.event_count
    }

    pub fn new() -> (t: Self)
        ensures
            t.count() == 0,
    {
        TelemetryCollector { event_count: 0 }
    }

    /// Counts one more event and gives the message it is reported with: `Event: <name>`.
    pub fn record_event(&mut self, event_name: &str) -> (message: String)
        requires
            old(self).count() < u64::MAX,
        ensures
            final(self).count() == old(self).count() + 1,
            message@ == "Event: "@ + event_name@,
    {
        self.event_count = self.event_count + 1;
        concat("Event: ", event_name)
    }

    pub fn get_event_count(&self) -> (n: u64)
        ensures
            n == self.count(),
    {
        self.event_count
    }
}

} // verus!
