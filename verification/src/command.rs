//! Parsing of command lines into a command name and its arguments.
use vstd::prelude::*;
use crate::text::{split_whitespace, string_views, words};

verus! {

/// A command line split into its name and arguments.
pub struct ParsedCommand {
    pub name: String,
    pub args: Vec<String>,
}

/// Splits command lines on whitespace.
pub struct CommandParser {}

impl CommandParser {
    pub fn new() -> Self {
        CommandParser {}
    }

    /// The first word of `input` as the name (empty when there is none) and the other
    /// words as arguments; always `Some`.
    pub fn parse_command(&self, input: &str) -> (r: Option<ParsedCommand>)
        ensures
            r matches Some(p) && p.name@ == (if words(input@).len() > 0 {
                words(input@)[0]
            } else {
                Seq::<char>::empty()
            }) && string_views(p.args@) == (if words(input@).len() > 0 {
                words(input@).drop_first()
            } else {
                Seq::<Seq<char>>::empty()
            }),
    {
        let mut ws = split_whitespace(input);
        if ws.len() == 0 {
            assert(string_views(ws@) =~= Seq::<Seq<char>>::empty());
            return Some(ParsedCommand { name: String::new(), args: ws });
        }
        let ghost all = ws@;
        let name = ws.remove(0);
        assert(string_views(ws@) =~= string_views(all).drop_first());
        Some(ParsedCommand { name, args: ws })
    }
}

} // verus!
