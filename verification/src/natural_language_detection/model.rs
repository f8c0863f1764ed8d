//! A keyword model of the language of a text.
use vstd::prelude::*;
use crate::color::{byte_len, byte_len_exceeds};
use crate::text::{contains, contains_seq, owned};

verus! {

/// The language a text is taken to be in: English when it contains "hello" or
/// "world", Spanish when it contains "hola", otherwise Unknown.
pub open spec fn detected_language(text: Seq<char>) -> Seq<char> {
    if contains_seq(text, "hello"@) || contains_seq(text, "world"@) {
        "English"@
    } else if contains_seq(text, "hola"@) {
        "Spanish"@
    } else {
        "Unknown"@
    }
}

/// Detects languages by keywords.
pub struct NlpModel;

impl NlpModel {
    pub fn new() -> Self {
        NlpModel
    }

    /// The language of `text`.
    pub fn detect_language(&self, text: &str) -> (r: String)
        ensures
            r@ == detected_language(text@),
    {
        if contains(text, "hello") || contains(text, "world") {
            owned("English")
        } else if contains(text, "hola") {
            owned("Spanish")
        } else {
            owned("Unknown")
        }
    }
}

/// The label a prediction gives once the model has run: `long_text_detected` for a
/// text longer than 20 bytes, `short_text_detected` otherwise; `No output from model`
/// when the model gave no output.
pub fn predict_label(input_text: &str, model_gave_output: bool) -> (r: Result<String, String>)
    ensures
        !model_gave_output ==> (r matches Err(e) && e@ == "No output from model"@),
        model_gave_output ==> (r matches Ok(l) && l@ == (if byte_len(input_text@) > 20 {
            "long_text_detected"@
        } else {
            "short_text_detected"@
        })),
{
    if !model_gave_output {
        return Err(owned("No output from model"));
    }
    if byte_len_exceeds(input_text, 20) {
        Ok(owned("long_text_detected"))
    } else {
        Ok(owned("short_text_detected"))
    }
}

} // verus!
