//! A multiple-choice quiz.
use vstd::prelude::*;
use crate::text::{lowercase, owned, to_lowercase};

verus! {

/// Keeps questions and answers.
pub struct MCQManager {}

impl MCQManager {
    pub fn new() -> Self {
        MCQManager {}
    }

    /// The next question.
    pub fn get_next_question(&self) -> (r: Option<String>)
        ensures
            r matches Some(q) && q@ == "What is the capital of France?"@,
    {
        Some(owned("What is the capital of France?"))
    }

    /// Whether `answer` is right: it is `paris` in any letter case.
    pub fn submit_answer(&self, answer: &str) -> (r: bool)
        ensures
            r == (lowercase(answer@) == "paris"@),
    {
        to_lowercase(answer).eq(&owned("paris"))
    }
}

} // verus!
