//! Markdown content: rendering it to HTML or to plain text.
pub mod parser;

pub use parser::MarkdownParser;

use vstd::prelude::*;
use crate::text::owned;

verus! {

/// Renders Markdown for display in the terminal.
pub struct MarkdownRenderer {}

impl MarkdownRenderer {
    pub fn new() -> Self {
        MarkdownRenderer {}
    }

    /// The text to display for `markdown`: currently the Markdown itself.
    pub fn render_markdown(&self, markdown: &str) -> (r: String)
        ensures
            r@ == markdown@,
    {
        owned(markdown)
    }
}

} // verus!
