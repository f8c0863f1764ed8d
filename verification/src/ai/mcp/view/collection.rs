//! The list of MCP items (workflows, notebooks, environments) with a selection.
use vstd::prelude::*;
use crate::text::{owned, string_views};

verus! {

/// The selection after asking to select `index` in a collection of `len` items: that
/// item when there is one, else the selection `sel` from before.
pub open spec fn select_step(len: nat, sel: Option<usize>, index: usize) -> Option<usize> {
    if index < len {
        Some(index)
    } else {
        sel
    }
}

/// The selection after asking, in turn, to select each index of `calls` in a collection
/// of `len` items whose selection was `start`.
pub open spec fn selection_after(len: nat, start: Option<usize>, calls: Seq<usize>) -> Option<usize>
    decreases calls.len(),
{
    if calls.len() == 0 {
        start
    } else {
        select_step(len, selection_after(len, start, calls.drop_last()), calls.last())
    }
}

/// After any sequence of selections, the selected item is the one at the last index
/// asked for that was in range; when no index asked for was in range, the selection is
/// what it was before.
pub proof fn law_selection_is_last_valid_index(len: nat, start: Option<usize>, calls: Seq<usize>)
    ensures
        (exists|j: int| 0 <= j < calls.len() && calls[j] < len) ==> exists|j: int| {
            &&& 0 <= j < calls.len()
            &&& calls[j] < len
            &&& selection_after(len, start, calls) == Some(#[trigger] calls[j])
            &&& forall|k: int| j < k < calls.len() ==> calls[k] >= len
        },
        (forall|j: int| 0 <= j < calls.len() ==> calls[j] >= len) ==> selection_after(len, start, calls) == start,
    decreases calls.len(),
{
    if calls.len() > 0 {
        let prefix = calls.drop_last();
        law_selection_is_last_valid_index(len, start, prefix);
        let n = calls.len() - 1;
        if calls[n] < len {
            assert(selection_after(len, start, calls) == Some(calls[n]));
        } else {
            assert forall|j: int| 0 <= j < prefix.len() implies prefix[j] == calls[j] by {}
            if exists|j: int| 0 <= j < calls.len() && calls[j] < len {
                let j0 = choose|j: int| 0 <= j < calls.len() && calls[j] < len;
                assert(prefix[j0] == calls[j0]);
                let j = choose|j: int| {
                    &&& 0 <= j < prefix.len()
                    &&& prefix[j] < len
                    &&& selection_after(len, start, prefix) == Some(#[trigger] prefix[j])
                    &&& forall|k: int| j < k < prefix.len() ==> prefix[k] >= len
                };
                assert(calls[j] == prefix[j]);
                assert forall|k: int| j < k < calls.len() implies calls[k] >= len by {
                    if k < prefix.len() {
                        assert(prefix[k] == calls[k]);
                    }
                }
            } else {
                assert forall|j: int| 0 <= j < prefix.len() implies prefix[j] >= len by {
                    assert(prefix[j] == calls[j]);
                }
            }
        }
    }
}

/// A collection of named items, at most one of them selected.
pub struct McpViewCollection {
    items: Vec<String>,
    selected_index: Option<usize>,
}

impl McpViewCollection {
    /// The item names.
    pub closed spec fn items(self) -> Seq<Seq<char>> {
        string_views(self.items@)
    }

    /// The selected position, if any.
    pub closed spec fn selected(self) -> Option<usize> {
        self.selected_index
    }

    #[verifier::type_invariant]
    closed spec fn inv(self) -> bool {
        self.selected_index matches Some(i) ==> i < self.items@.len()
    }

    /// The three sample items, none selected.
    pub fn new() -> (c: Self)
        ensures
            c.items() == seq!["Workflow A"@, "Notebook B"@, "Environment C"@],
            c.selected() is None,
    {
        let mut items: Vec<String> = Vec::new();
        items.push(owned("Workflow A"));
        items.push(owned("Notebook B"));
        items.push(owned("Environment C"));
        let c = McpViewCollection { items, selected_index: None };
        assert(c.items() =~= seq!["Workflow A"@, "Notebook B"@, "Environment C"@]);
        c
    }

    /// Shows the collection; it changes nothing.
    pub fn display(&self) {
    }

    /// Selects the item at `index` when there is one; otherwise nothing changes.
    pub fn select_item(&mut self, index: usize)
        ensures
            final(self).items() == old(self).items(),
            final(self).selected() == select_step(old(self).items().len(), old(self).selected(), index),
    {
        if index < self.items.len() {
            self.selected_index = Some(index);
        }
    }

    /// The name of the selected item.
    pub fn get_selected_item_name(&self) -> (r: Option<&String>)
        ensures
            r is Some == self.selected() is Some,
            r matches Some(s) ==> self.selected()->0 < self.items().len() && s@ == self.items()[self.selected()->0 as int],
    {
        proof {
            use_type_invariant(self);
        }
        match self.selected_index {
            Some(i) => Some(&self.items[i]),
            None => None,
        }
    }
}

} // verus!
