//! A command input with a list of suggestions below it.
use vstd::prelude::*;

verus! {

/// A suggested completion.
#[derive(Debug)]
pub struct Suggestion {
    pub text: String,
}

/// A message to the input.
#[derive(Debug)]
pub enum EditorMessage {
    ValueChanged(String),
    SuggestionSelected(usize),
    SuggestionsToggled(bool),
}

/// How many suggestions are shown at most.
pub const MAX_SHOWN_SUGGESTIONS: usize = 5;

/// A suggestion row as shown: its text and whether it is the selected one.
#[derive(Debug)]
pub struct SuggestionRow {
    pub text: String,
    pub selected: bool,
}

/// A text input with suggestions.
pub struct EnhancedTextInput {
    value: String,
    suggestions: Vec<Suggestion>,
    selected_suggestion: Option<usize>,
    show_suggestions: bool,
}

impl EnhancedTextInput {
    pub closed spec fn text(self) -> Seq<char> {
        self.value@
    }

    pub closed spec fn suggestion_texts(self) -> Seq<Seq<char>> {
        self.suggestions@.map_values(|s: Suggestion| s.text@)
    }

    pub closed spec fn selected(self) -> Option<usize> {
        self.selected_suggestion
    }

    pub closed spec fn showing(self) -> bool {
        self.show_suggestions
    }

    /// An empty input without suggestions.
    pub fn new() -> (r: Self)
        ensures
            r.text() == Seq::<char>::empty(),
            r.suggestion_texts().len() == 0,
            r.selected() is None,
            !r.showing(),
    {
        EnhancedTextInput { value: String::new(), suggestions: Vec::new(), selected_suggestion: None, show_suggestions: false }
    }

    /// The input holding `value`.
    pub fn with_value(self, value: String) -> (r: Self)
        ensures
            r.text() == value@,
            r.suggestion_texts() == self.suggestion_texts(),
            r.selected() == self.selected(),
            r.showing() == self.showing(),
    {
        let mut s = self;
        s.value = value;
        s
    }

    /// The input offering `suggestions`, shown when there are any.
    pub fn with_suggestions(self, suggestions: Vec<Suggestion>) -> (r: Self)
        ensures
            r.text() == self.text(),
            r.suggestion_texts() == suggestions@.map_values(|s: Suggestion| s.text@),
            r.selected() == self.selected(),
            r.showing() == (suggestions@.len() > 0),
    {
        let mut s = self;
        let show = suggestions.len() > 0;
        s.suggestions = suggestions;
        s.show_suggestions = show;
        s
    }

    /// The current text.
    pub fn value(&self) -> (r: &str)
        ensures
            r@ == self.text(),
    {
        self.value.as_str()
    }

    /// Whether the suggestion list is drawn: it is switched on and not empty.
    pub fn shows_suggestions(&self) -> (r: bool)
        ensures
            r == (self.showing() && self.suggestion_texts().len() > 0),
    {
        self.show_suggestions && self.suggestions.len() > 0
    }

    /// The rows of the suggestion list: the first five suggestions, each marked when it
    /// is the selected one.
    pub fn suggestion_rows(&self) -> (r: Vec<SuggestionRow>)
        ensures
            r@.len() == (if self.suggestion_texts().len() < 5 { self.suggestion_texts().len() } else { 5 }),
            forall|i: int| 0 <= i < r@.len() ==> (#[trigger] r@[i]).text@ == self.suggestion_texts()[i]
                && r@[i].selected == (self.selected() == Some(i as usize)),
    {
        let mut r: Vec<SuggestionRow> = Vec::new();
        let mut i: usize = 0;
        while i < self.suggestions.len() && i < MAX_SHOWN_SUGGESTIONS
            invariant
                i <= self.suggestions@.len(),
                i <= 5,
                r@.len() == i,
                forall|j: int| 0 <= j < i ==> (#[trigger] r@[j]).text@ == self.suggestion_texts()[j]
                    && r@[j].selected == (self.selected() == Some(j as usize)),
            decreases self.suggestions.len() - i,
        {
            let selected = match self.selected_suggestion {
                Some(s) => s == i,
                None => false,
            };
            r.push(SuggestionRow { text: self.suggestions[i].text.clone(), selected });
            i = i + 1;
        }
        r
    }
}

} // verus!
