//! Fuzzy search over candidate strings, scored by skim's matching algorithm.
use vstd::prelude::*;
use fuzzy_matcher::skim::SkimMatcherV2;
use fuzzy_matcher::FuzzyMatcher;
use crate::ranking::{rank_by_score, ranked, scored_views};

verus! {

/// skim's fuzzy matcher, carried through opaquely.
#[verifier::external_type_specification]
#[verifier::external_body]
pub struct ExSkimMatcherV2(SkimMatcherV2);

/// The score skim's default matcher gives `choice` for `pattern`, or `None` when the
/// pattern does not match.
pub uninterp spec fn skim_score(choice: Seq<char>, pattern: Seq<char>) -> Option<i64>;

/// The score and matched character positions skim's default matcher gives `choice`
/// for `pattern`, or `None` when the pattern does not match.
pub uninterp spec fn skim_indices(choice: Seq<char>, pattern: Seq<char>) -> Option<(i64, Seq<usize>)>;

/// `SkimMatcherV2::default()`: smart case, default scoring, cache on.
/// Nothing is stated of the value; it is only handed to the two calls below.
#[verifier::external_body]
pub(crate) fn default_skim_matcher() -> SkimMatcherV2 {
    SkimMatcherV2::default()
}

/// `FuzzyMatcher::fuzzy_match` of a default `SkimMatcherV2` (the only kind this library
/// builds). The score is left to the name `skim_score`, a function of the two texts;
/// the crate's source returns `Some(0)` at once for an empty pattern.
#[verifier::external_body]
pub(crate) fn skim_fuzzy_match(m: &SkimMatcherV2, choice: &str, pattern: &str) -> (r: Option<i64>)
    ensures
        r == skim_score(choice@, pattern@),
        pattern@.len() == 0 ==> r == Some(0i64),
{
    m.fuzzy_match(choice, pattern)
}

/// `FuzzyMatcher::fuzzy_indices` of a default `SkimMatcherV2`. Its result is left to the
/// name `skim_indices`; the crate's source returns `(0, [])` at once for an empty pattern.
#[verifier::external_body]
pub(crate) fn skim_fuzzy_indices(m: &SkimMatcherV2, choice: &str, pattern: &str) -> (r: Option<(i64, Vec<usize>)>)
    ensures
        r is Some == skim_indices(choice@, pattern@) is Some,
        r is Some ==> skim_indices(choice@, pattern@) == Some((r.unwrap().0, r.unwrap().1@)),
        pattern@.len() == 0 ==> r is Some && r.unwrap().0 == 0 && r.unwrap().1@.len() == 0,
{
    m.fuzzy_indices(choice, pattern)
}

/// The views of a slice of strings.
pub open spec fn views(v: Seq<String>) -> Seq<Seq<char>> {
    v.map_values(|c: String| c@)
}

/// skim's score for each candidate against `query`.
pub open spec fn skim_scores(cands: Seq<Seq<char>>, query: Seq<char>) -> Seq<Option<i64>> {
    cands.map_values(|c: Seq<char>| skim_score(c, query))
}

/// Scores every candidate against `query` with skim.
pub(crate) fn score_all(m: &SkimMatcherV2, query: &str, candidates: &[String]) -> (r: Vec<Option<i64>>)
    ensures
        r@ == skim_scores(views(candidates@), query@),
{
    let mut r: Vec<Option<i64>> = Vec::new();
    let mut i: usize = 0;
    while i < candidates.len()
        invariant
            i <= candidates.len(),
            r@ == skim_scores(views(candidates@), query@).take(i as int),
        decreases candidates.len() - i,
    {
        let s = skim_fuzzy_match(m, candidates[i].as_str(), query);
        r.push(s);
        assert(r@ =~= skim_scores(views(candidates@), query@).take(i + 1));
        i = i + 1;
    }
    assert(r@ =~= skim_scores(views(candidates@), query@));
    r
}

/// Fuzzy search over lists of strings.
pub struct FuzzySearch {
    matcher: SkimMatcherV2,
}

impl FuzzySearch {
    /// A search with skim's default settings.
    pub fn new() -> Self {
        FuzzySearch { matcher: default_skim_matcher() }
    }

    /// The candidates that match `query`, as `(score, candidate)`, highest score first
    /// (candidates with equal scores keep their order).
    pub fn fuzzy_match(&self, query: &str, candidates: &[String]) -> (r: Vec<(i64, String)>)
        ensures
            scored_views(r@) == ranked(views(candidates@), skim_scores(views(candidates@), query@)),
    {
        let scores = score_all(&self.matcher, query, candidates);
        rank_by_score(candidates, scores.as_slice())
    }

    /// Whether `query` matches `candidate` with a score of at least `min_score`.
    pub fn is_match(&self, query: &str, candidate: &str, min_score: i64) -> (r: bool)
        ensures
            r == (skim_score(candidate@, query@) matches Some(s) && s >= min_score),
    {
        match skim_fuzzy_match(&self.matcher, candidate, query) {
            Some(score) => score >= min_score,
            None => false,
        }
    }
}

} // verus!
