//! Fuzzy string matching, as used for command suggestions and search.
pub mod matcher;

pub use matcher::FuzzyMatcher;
