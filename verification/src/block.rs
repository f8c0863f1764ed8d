//! A plain block of terminal output: its number, its text and whether it is a command.
use vstd::prelude::*;

verus! {

/// A block of output, numbered.
#[derive(Debug)]
pub struct Block {
    id: usize,
    content: String,
    is_command: bool,
}

impl Block {
    pub closed spec fn spec_id(self) -> usize {
        self.id
    }

    pub closed spec fn text(self) -> Seq<char> {
        self.content@
    }

    pub closed spec fn command(self) -> bool {
        self.is_command
    }

    pub fn new(id: usize, content: String, is_command: bool) -> (b: Self)
        ensures
            b.spec_id() == id,
            b.text() == content@,
            b.command() == is_command,
    {
        Block { id, content, is_command }
    }

    pub fn id(&self) -> (r: usize)
        ensures
            r == self.spec_id(),
    {
        self.id
    }

    pub fn content(&self) -> (r: &str)
        ensures
            r@ == self.text(),
    {
        self.content.as_str()
    }

    pub fn is_command(&self) -> (r: bool)
        ensures
            r == self.command(),
    {
        self.is_command
    }
}

} // verus!
