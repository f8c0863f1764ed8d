//! Language-specific services such as syntax rules.
use vstd::prelude::*;
use crate::text::{concat, string_views};

verus! {

/// Language-specific features.
pub struct LanguageService {}

impl LanguageService {
    pub fn new() -> Self {
        LanguageService {}
    }

    /// The syntax rules of `language`: one rule, `"rules for "` and the language.
    pub fn get_syntax_rules(&self, language: &str) -> (r: Vec<String>)
        ensures
            string_views(r@) == seq!["rules for "@ + language@],
    {
        let mut r: Vec<String> = Vec::new();
        r.push(concat("rules for ", language));
        assert(string_views(r@) =~= seq!["rules for "@ + language@]);
        r
    }
}

} // verus!
