//! Syntax trees of commands.
pub mod parser;
use vstd::prelude::*;
use crate::text::owned;

verus! {

struct Node {
    value: String,
    children: Vec<Box<Node>>,
}

/// A syntax tree, possibly empty.
pub struct SyntaxTree {
    root: Option<Box<Node>>,
}

impl SyntaxTree {
    /// The value at the root, if there is a root.
    pub closed spec fn root_value(self) -> Option<Seq<char>> {
        match self.root {
            Some(n) => Some(n.value@),
            None => None,
        }
    }

    /// Number of children of the root.
    pub closed spec fn root_children(self) -> nat {
        match self.root {
            Some(n) => n.children@.len(),
            None => 0,
        }
    }

    /// An empty tree.
    pub fn new() -> (t: Self)
        ensures
            t.root_value() is None,
    {
        SyntaxTree { root: None }
    }

    /// The result of analysing the tree.
    pub fn analyze(&self) -> (r: String)
        ensures
            r@ == "Syntax analysis complete."@,
    {
        owned("Syntax analysis complete.")
    }

    /// Makes a single node holding `value` the root.
    pub fn add_node(&mut self, value: String)
        ensures
            final(self).root_value() == Some(value@),
            final(self).root_children() == 0,
    {
        self.root = Some(Box::new(Node { value, children: Vec::new() }));
    }
}

} // verus!
