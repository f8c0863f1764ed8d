//! Warp Drive: saved workflows, notebooks, prompts and sets of environment variables,
//! each under its own identifier.
use vstd::prelude::*;
use std::collections::HashMap;

verus! {

broadcast use vstd::std_specs::hash::group_hash_axioms;

/// An item saved in Warp Drive.
#[derive(Debug)]
pub enum WarpDriveItem {
    Workflow { id: u128, name: String, command: String },
    Notebook { id: u128, name: String, content: String },
    Prompt { id: u128, name: String, prompt: String },
    EnvironmentVariables { id: u128, name: String, variables: Vec<(String, String)> },
}

/// The identifier of an item.
pub open spec fn item_id(item: WarpDriveItem) -> u128 {
    match item {
        WarpDriveItem::Workflow { id, .. } => id,
        WarpDriveItem::Notebook { id, .. } => id,
        WarpDriveItem::Prompt { id, .. } => id,
        WarpDriveItem::EnvironmentVariables { id, .. } => id,
    }
}

impl WarpDriveItem {
    /// The item's identifier.
    pub fn id(&self) -> (r: u128)
        ensures
            r == item_id(*self),
    {
        match self {
            WarpDriveItem::Workflow { id, .. } => *id,
            WarpDriveItem::Notebook { id, .. } => *id,
            WarpDriveItem::Prompt { id, .. } => *id,
            WarpDriveItem::EnvironmentVariables { id, .. } => *id,
        }
    }
}

/// Whether `item` is stored under some identifier.
pub open spec fn stored(items: Map<u128, WarpDriveItem>, item: WarpDriveItem) -> bool {
    exists|k: u128| items.contains_key(k) && #[trigger] items[k] == item
}

/// The items of Warp Drive, by identifier.
pub struct DriveManager {
    items: HashMap<u128, WarpDriveItem>,
}

impl DriveManager {
    /// The items by identifier.
    pub closed spec fn items(self) -> Map<u128, WarpDriveItem> {
        self.items@
    }

    /// No items.
    pub fn new() -> (m: Self)
        ensures
            m.items() == Map::<u128, WarpDriveItem>::empty(),
    {
        DriveManager { items: HashMap::new() }
    }

    /// Stores an item under its identifier, replacing one with the same identifier.
    pub fn add_item(&mut self, item: WarpDriveItem)
        ensures
            final(self).items() == old(self).items().insert(item_id(item), item),
    {
        let id = item.id();
        self.items.insert(id, item);
    }

    /// The item with identifier `id`.
    pub fn get_item(&self, id: &u128) -> (r: Option<&WarpDriveItem>)
        ensures
            r is Some == self.items().contains_key(*id),
            r matches Some(i) ==> *i == self.items()[*id],
    {
        self.items.get(id)
    }

    /// Every item, each once, in the order the map walks them (which is not stated).
    pub fn get_all_items(&self) -> (r: Vec<&WarpDriveItem>)
        ensures
            r@.len() == self.items().dom().len(),
            forall|i: int| 0 <= i < r@.len() ==> #[trigger] stored(self.items(), *r@[i]),
            forall|k: u128| #[trigger] self.items().contains_key(k) ==> exists|i: int| 0 <= i < r@.len() && *r@[i] == self.items()[k],
    {
        let mut r: Vec<&WarpDriveItem> = Vec::new();
        for v in it: self.items.values()
            invariant
                r@ == it.seq().take(it.index() as int),
        {
            r.push(v);
            assert(r@ =~= it.seq().take(it.index() + 1));
        }
        let ghost all = vstd::std_specs::iter::IteratorSpec::remaining(&vstd::std_specs::hash::spec_values_iter(&self.items));
        proof {
            assert(r@ =~= all);
            assert forall|j: int| 0 <= j < r@.len() implies #[trigger] stored(self.items(), *r@[j]) by {
                assert(all.unref()[j] == *r@[j]);
                assert(all.unref().to_set().contains(*r@[j]));
                assert(self.items().values().contains(*r@[j]));
            }
            assert forall|k: u128| #[trigger] self.items().contains_key(k) implies exists|j: int| 0 <= j < r@.len() && *r@[j] == self.items()[k] by {
                assert(self.items().values().contains(self.items()[k]));
                assert(all.unref().to_set().contains(self.items()[k]));
                let j = choose|j: int| 0 <= j < all.unref().len() && all.unref()[j] == self.items()[k];
                assert(*r@[j] == self.items()[k]);
            }
        }
        r
    }

    /// Removes and returns the item with identifier `id`.
    pub fn remove_item(&mut self, id: &u128) -> (r: Option<WarpDriveItem>)
        ensures
            final(self).items() == old(self).items().remove(*id),
            r is Some == old(self).items().contains_key(*id),
            r matches Some(i) ==> i == old(self).items()[*id],
    {
        self.items.remove(id)
    }

    /// Removes every item.
    pub fn clear_items(&mut self)
        ensures
            final(self).items() == Map::<u128, WarpDriveItem>::empty(),
    {
        self.items = HashMap::new();
    }

    /// Number of items.
    pub fn len(&self) -> (n: usize)
        ensures
            n == self.items().dom().len(),
    {
        self.items.len()
    }

    /// Whether there are no items.
    pub fn is_empty(&self) -> (r: bool)
        ensures
            r == (self.items().dom().len() == 0),
    {
        self.items.len() == 0
    }
}

impl Default for DriveManager {
    fn default() -> (m: Self)
        ensures
            m.items() == Map::<u128, WarpDriveItem>::empty(),
    {
        DriveManager::new()
    }
}

} // verus!
