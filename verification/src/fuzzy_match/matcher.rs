//! A fuzzy matcher over skim's algorithm.
use vstd::prelude::*;
use fuzzy_matcher::skim::SkimMatcherV2;
use crate::fuzzy::{
    default_skim_matcher, score_all, skim_fuzzy_indices, skim_fuzzy_match, skim_indices, skim_score,
    skim_scores, views,
};
use crate::ranking::{rank_by_score, ranked, scored_views};

verus! {

/// Matches texts against fuzzy queries with skim's default settings.
pub struct FuzzyMatcher {
    matcher: SkimMatcherV2,
}

impl FuzzyMatcher {
    /// A matcher with skim's default settings.
    pub fn new() -> Self {
        FuzzyMatcher { matcher: default_skim_matcher() }
    }

    /// The score of `text` against `query`, or `None` when it does not match.
    pub fn fuzzy_match(&self, text: &str, query: &str) -> (r: Option<i64>)
        ensures
            r == skim_score(text@, query@),
            query@.len() == 0 ==> r == Some(0i64),
    {
        skim_fuzzy_match(&self.matcher, text, query)
    }

    /// The score of `text` against `query` with the matched character positions.
    pub fn fuzzy_match_indices(&self, text: &str, query: &str) -> (r: Option<(i64, Vec<usize>)>)
        ensures
            (match r {
                Some(p) => skim_indices(text@, query@) == Some((p.0, p.1@)),
                None => skim_indices(text@, query@) is None,
            }),
    {
        skim_fuzzy_indices(&self.matcher, text, query)
    }

    /// The candidates that match `query`, as `(score, candidate)`, highest score first
    /// (candidates with equal scores keep their order).
    pub fn filter_candidates(&self, query: &str, candidates: &[String]) -> (r: Vec<(i64, String)>)
        ensures
            scored_views(r@) == ranked(views(candidates@), skim_scores(views(candidates@), query@)),
    {
        let scores = score_all(&self.matcher, query, candidates);
        rank_by_score(candidates, scores.as_slice())
    }
}

} // verus!
