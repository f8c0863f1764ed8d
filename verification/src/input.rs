//! The command input line with its submission history.
use vstd::prelude::*;
use crate::text::{all_ws, is_blank, owned, push_char, string_views};

verus! {

/// Messages to the input line.
#[derive(Debug)]
pub enum EditorMessage {
    InputChanged(String),
    Submit,
    HistoryUp,
    HistoryDown,
}

/// A message as a value.
pub enum EditorMessageView {
    InputChanged(Seq<char>),
    Submit,
    HistoryUp,
    HistoryDown,
}

impl EditorMessage {
    pub open spec fn view(self) -> EditorMessageView {
        match self {
            EditorMessage::InputChanged(s) => EditorMessageView::InputChanged(s@),
            EditorMessage::Submit => EditorMessageView::Submit,
            EditorMessage::HistoryUp => EditorMessageView::HistoryUp,
            EditorMessage::HistoryDown => EditorMessageView::HistoryDown,
        }
    }
}

/// The part of the input line that history navigation works on: the text being
/// typed, the submitted entries, and which entry is being shown.
pub struct LineState {
    pub input: Seq<char>,
    pub history: Seq<Seq<char>>,
    pub index: Option<usize>,
}

/// The shown entry, if any, is one of the history entries.
pub open spec fn line_ok(s: LineState) -> bool {
    s.index matches Some(i) ==> i < s.history.len()
}

/// How the input line reacts to a message: the next state and the text submitted,
/// if any. Submitting reports the text even when it is blank, but only a non-blank
/// text is added to the history (and then the line is cleared). History up moves to
/// the previous entry (from none, to the last one); history down moves to the next
/// entry, or past the last one back to an empty line.
pub open spec fn line_step(s: LineState, m: EditorMessageView) -> (LineState, Option<Seq<char>>) {
    match m {
        EditorMessageView::InputChanged(v) => (LineState { input: v, ..s }, None),
        EditorMessageView::Submit => if !all_ws(s.input) {
            (LineState { input: Seq::empty(), history: s.history.push(s.input), index: None }, Some(s.input))
        } else {
            (s, Some(s.input))
        },
        EditorMessageView::HistoryUp => match s.index {
            Some(i) => if i > 0 {
                (LineState { input: s.history[i - 1], index: Some((i - 1) as usize), ..s }, None)
            } else {
                (s, None)
            },
            None => if s.history.len() > 0 {
                (
                    LineState {
                        input: s.history.last(),
                        index: Some((s.history.len() - 1) as usize),
                        ..s
                    },
                    None,
                )
            } else {
                (s, None)
            },
        },
        EditorMessageView::HistoryDown => match s.index {
            Some(i) => if i + 1 < s.history.len() {
                (LineState { input: s.history[i + 1], index: Some((i + 1) as usize), ..s }, None)
            } else {
                (LineState { input: Seq::empty(), index: None, ..s }, None)
            },
            None => (s, None),
        },
    }
}

/// Every step keeps the shown entry within the history.
pub proof fn law_line_step_keeps_index(s: LineState, m: EditorMessageView)
    requires
        line_ok(s),
        s.history.len() <= usize::MAX,
    ensures
        line_ok(line_step(s, m).0),
{
}

/// Going up into the history from a fresh line and back down again returns to an
/// empty line with nothing shown, and leaves the history as it was.
pub proof fn law_history_up_then_down(s: LineState)
    requires
        line_ok(s),
        s.history.len() <= usize::MAX,
        s.index is None,
        s.history.len() > 0,
    ensures
        ({
            let up = line_step(s, EditorMessageView::HistoryUp).0;
            let down = line_step(up, EditorMessageView::HistoryDown).0;
            down.input == Seq::<char>::empty() && down.index is None && down.history == s.history
        }),
{
}

/// Submitting a non-blank line records it as the newest entry, then history up
/// brings it back.
pub proof fn law_submit_then_recall(s: LineState)
    requires
        line_ok(s),
        s.history.len() < usize::MAX,
        !all_ws(s.input),
    ensures
        ({
            let sub = line_step(s, EditorMessageView::Submit);
            let up = line_step(sub.0, EditorMessageView::HistoryUp).0;
            sub.1 == Some(s.input) && sub.0.history == s.history.push(s.input) && up.input == s.input
        }),
{
}

/// What the input line hands back after a message.
#[derive(Debug)]
pub enum EditorOutput {
    Nothing,
    InputSubmitted(String),
}

/// The input line: text, history, font, and the key-by-key input handler.
pub struct Editor {
    input_value: String,
    history: Vec<String>,
    history_index: Option<usize>,
    font_size: u16,
    font_family: String,
    input_handler: InputHandler,
}

impl Editor {
    /// The history-related state.
    pub closed spec fn line(self) -> LineState {
        LineState { input: self.input_value@, history: string_views(self.history@), index: self.history_index }
    }

    pub closed spec fn font_size(self) -> u16 {
        self.font_size
    }

    pub closed spec fn font_family(self) -> Seq<char> {
        self.font_family@
    }

    /// The text typed through the key handler.
    pub closed spec fn typed(self) -> Seq<char> {
        self.input_handler.current_input@
    }

    #[verifier::type_invariant]
    closed spec fn inv(self) -> bool {
        line_ok(self.line())
    }

    /// An empty line with an empty history, Fira Code at size 16.
    pub fn new() -> (e: Self)
        ensures
            e.line().input == Seq::<char>::empty(),
            e.line().history == Seq::<Seq<char>>::empty(),
            e.line().index is None,
            e.font_size() == 16,
            e.font_family() == "Fira Code"@,
            e.typed() == Seq::<char>::empty(),
    {
        let e = Editor {
            input_value: String::new(),
            history: Vec::new(),
            history_index: None,
            font_size: 16,
            font_family: owned("Fira Code"),
            input_handler: InputHandler::new(),
        };
        assert(string_views(e.history@) =~= Seq::<Seq<char>>::empty());
        e
    }

    /// Applies a message; see `line_step`.
    pub fn update(&mut self, message: EditorMessage) -> (out: EditorOutput)
        ensures
            (final(self).line(), match out {
                EditorOutput::Nothing => None,
                EditorOutput::InputSubmitted(s) => Some(s@),
            }) == line_step(old(self).line(), message.view()),
            final(self).font_size() == old(self).font_size(),
            final(self).font_family() == old(self).font_family(),
            final(self).typed() == old(self).typed(),
    {
        proof {
            use_type_invariant(&*self);
        }
        match message {
            EditorMessage::InputChanged(value) => {
                self.input_value = value;
                EditorOutput::Nothing
            },
            EditorMessage::Submit => {
                let submitted = self.input_value.clone();
                if !is_blank(submitted.as_str()) {
                    self.history_index = None;
                    let mut h: Vec<String> = Vec::new();
                    std::mem::swap(&mut h, &mut self.history);
                    let ghost before = h@;
                    h.push(submitted.clone());
                    assert(string_views(h@) =~= string_views(before).push(submitted@));
                    self.history = h;
                    self.input_value = String::new();
                }
                EditorOutput::InputSubmitted(submitted)
            },
            EditorMessage::HistoryUp => {
                match self.history_index {
                    Some(idx) => {
                        if idx > 0 {
                            self.input_value = self.history[idx - 1].clone();
                            self.history_index = Some(idx - 1);
                        }
                    },
                    None => {
                        if self.history.len() > 0 {
                            let n = self.history.len();
                            self.input_value = self.history[n - 1].clone();
                            self.history_index = Some(n - 1);
                        }
                    },
                }
                EditorOutput::Nothing
            },
            EditorMessage::HistoryDown => {
                match self.history_index {
                    Some(idx) => {
                        if idx < self.history.len() - 1 {
                            self.input_value = self.history[idx + 1].clone();
                            self.history_index = Some(idx + 1);
                        } else {
                            self.history_index = None;
                            self.input_value = String::new();
                        }
                    },
                    None => {},
                }
                EditorOutput::Nothing
            },
        }
    }

    pub fn get_input_value(&self) -> (r: &str)
        ensures
            r@ == self.line().input,
    {
        proof {
            use_type_invariant(&*self);
        }
        self.input_value.as_str()
    }

    /// Sets the text; no history entry is shown afterwards.
    pub fn set_input_value(&mut self, value: String)
        ensures
            final(self).line() == (LineState { input: value@, index: None, ..old(self).line() }),
            final(self).font_size() == old(self).font_size(),
            final(self).font_family() == old(self).font_family(),
            final(self).typed() == old(self).typed(),
    {
        proof {
            use_type_invariant(&*self);
        }
        self.input_value = value;
        self.history_index = None;
    }

    /// Empties the text and the key handler; no history entry is shown afterwards.
    pub fn clear(&mut self)
        ensures
            final(self).line() == (LineState { input: Seq::empty(), index: None, ..old(self).line() }),
            final(self).font_size() == old(self).font_size(),
            final(self).font_family() == old(self).font_family(),
            final(self).typed() == Seq::<char>::empty(),
    {
        proof {
            use_type_invariant(&*self);
        }
        self.input_value = String::new();
        self.history_index = None;
        self.input_handler = InputHandler::new();
    }

    pub fn set_font_size(&mut self, size: u16)
        ensures
            final(self).font_size() == size,
            final(self).line() == old(self).line(),
            final(self).font_family() == old(self).font_family(),
            final(self).typed() == old(self).typed(),
    {
        proof {
            use_type_invariant(&*self);
        }
        self.font_size = size;
    }

    pub fn set_font_family(&mut self, family: String)
        ensures
            final(self).font_family() == family@,
            final(self).line() == old(self).line(),
            final(self).font_size() == old(self).font_size(),
            final(self).typed() == old(self).typed(),
    {
        proof {
            use_type_invariant(&*self);
        }
        self.font_family = family;
    }

    /// Feeds a key to the handler; the text becomes everything typed so far.
    pub fn handle_key_event(&mut self, key: char)
        ensures
            final(self).typed() == old(self).typed().push(key),
            final(self).line() == (LineState { input: old(self).typed().push(key), ..old(self).line() }),
            final(self).font_size() == old(self).font_size(),
            final(self).font_family() == old(self).font_family(),
    {
        proof {
            use_type_invariant(&*self);
        }
        let mut h = InputHandler::new();
        std::mem::swap(&mut h, &mut self.input_handler);
        h.handle_key_event(key);
        self.input_value = h.current_input.clone();
        self.input_handler = h;
    }
}

/// Collects typed keys.
pub struct InputHandler {
    pub current_input: String,
}

impl InputHandler {
    pub fn new() -> (h: Self)
        ensures
            h.current_input@ == Seq::<char>::empty(),
    {
        InputHandler { current_input: String::new() }
    }

    /// Appends the key to the input.
    pub fn handle_key_event(&mut self, key: char)
        ensures
            final(self).current_input@ == old(self).current_input@.push(key),
    {
        push_char(&mut self.current_input, key);
    }

    /// Empties the input.
    pub fn clear_input(&mut self)
        ensures
            final(self).current_input@ == Seq::<char>::empty(),
    {
        self.current_input = String::new();
    }
}

} // verus!
