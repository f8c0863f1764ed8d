//! Detecting the language or intent of free text.
pub mod model;

use vstd::prelude::*;
use model::{NlpModel, detected_language};

verus! {

/// Detects what a piece of text is about.
pub struct NaturalLanguageDetector {
    model: NlpModel,
}

impl NaturalLanguageDetector {
    pub fn new() -> Self {
        NaturalLanguageDetector { model: NlpModel::new() }
    }

    /// What the model detects in `text`.
    pub fn detect_intent(&self, text: &str) -> (r: String)
        ensures
            r@ == detected_language(text@),
    {
        self.model.detect_language(text)
    }
}

} // verus!
