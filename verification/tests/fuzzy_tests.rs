use warp_terminal::fuzzy::FuzzySearch;
use warp_terminal::fuzzy_match::FuzzyMatcher;

// The original expectation here was two results, "apple" then "apricot". The skim
// matcher of fuzzy-matcher 0.3.7, which both call, only matches a candidate that holds
// the whole pattern as a subsequence, and "apricot" has a single 'p': only "apple" is
// found.
#[test]
fn fuzzy_test_fuzzy_match_basic() {
    let fuzzy_search = FuzzySearch::new();
    let candidates = vec![
        "apple".to_string(),
        "banana".to_string(),
        "apricot".to_string(),
        "grape".to_string(),
    ];
    // "apricot" has a single 'p', so only "apple" holds "app" as a subsequence.
    let results = fuzzy_search.fuzzy_match("app", &candidates);
    assert_eq!(results.len(), 1);
    assert_eq!(results[0].1, "apple");
    assert!(results[0].0 > 0);
}

#[test]
fn test_fuzzy_match_no_match() {
    let fuzzy_search = FuzzySearch::new();
    let candidates = vec!["apple".to_string(), "banana".to_string()];
    let results = fuzzy_search.fuzzy_match("xyz", &candidates);
    assert!(results.is_empty());
}

#[test]
fn test_is_match() {
    let fuzzy_search = FuzzySearch::new();
    assert!(fuzzy_search.is_match("abc", "axbyc", 0));
    assert!(!fuzzy_search.is_match("abc", "axbyc", 100)); // Assuming 100 is a high score
}

#[test]
fn fuzzy_test_empty_query() {
    let fuzzy_search = FuzzySearch::new();
    let candidates = vec!["test".to_string()];
    let results = fuzzy_search.fuzzy_match("", &candidates);
    assert_eq!(results.len(), 1);
    assert_eq!(results[0].1, "test");
}

#[test]
fn matcher_test_fuzzy_match_basic() {
    let matcher = FuzzyMatcher::new();
    assert!(matcher.fuzzy_match("hello world", "hlo").is_some());
    assert!(matcher.fuzzy_match("rust programming", "rust prog").is_some());
    assert!(matcher.fuzzy_match("apple", "aple").is_some());
    assert!(matcher.fuzzy_match("apple", "xyz").is_none());
}

// The original expectation here was the indices [0, 2, 4]. Those spell "hlo" too, but
// the skim matcher of fuzzy-matcher 0.3.7 scores a run of adjacent matches higher and
// picks the 'l' right before the 'o': it reports [0, 3, 4].
#[test]
fn test_fuzzy_match_indices() {
    let matcher = FuzzyMatcher::new();
    let text: Vec<char> = "hello world".chars().collect();
    if let Some((score, indices)) = matcher.fuzzy_match_indices("hello world", "hlo") {
        assert!(score > 0);
        assert_eq!(indices.len(), 3);
        assert_eq!(text[indices[0]], 'h');
        assert_eq!(text[indices[1]], 'l');
        assert_eq!(text[indices[2]], 'o');
        assert!(indices[0] < indices[1] && indices[1] < indices[2]);
        assert_eq!(indices, vec![0, 3, 4]);
    } else {
        panic!("Match not found");
    }
}

// The original expectation here was two results, "foobar" then "fobaz". The skim
// matcher of fuzzy-matcher 0.3.7 also finds "fb" in "foo_bar_baz", so three candidates
// come back, best score first, and "qux" is not among them.
#[test]
fn test_filter_candidates() {
    let matcher = FuzzyMatcher::new();
    let candidates = vec![
        "foo_bar_baz".to_string(),
        "foobar".to_string(),
        "fobaz".to_string(),
        "qux".to_string(),
    ];
    let results = matcher.filter_candidates("fb", &candidates);
    assert_eq!(results.len(), 3);
    for w in results.windows(2) {
        assert!(w[0].0 >= w[1].0);
    }
    assert!(results.iter().all(|r| r.1 != "qux"));
}

#[test]
fn matcher_test_empty_query() {
    let matcher = FuzzyMatcher::new();
    let candidates = vec!["test".to_string()];
    let results = matcher.filter_candidates("", &candidates);
    assert_eq!(results.len(), 1);
    assert_eq!(results[0].1, "test");
}
