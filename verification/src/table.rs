//! A small association table: a vector of `(key, value)` entries whose keys are all
//! different, viewed as a finite map. Entries keep the order in which keys were first
//! inserted.
use vstd::prelude::*;

verus! {

/// Keys a table can be indexed by: they can be compared and copied, and have a value view.
pub trait TableKey: Sized {
    type KeyView;

    spec fn key_view(&self) -> Self::KeyView;

    /// Whether two keys are the same.
    fn same_key(&self, other: &Self) -> (r: bool)
        ensures
            r == (self.key_view() == other.key_view()),
    ;

    /// A copy of the key.
    fn copy_key(&self) -> (r: Self)
        ensures
            r.key_view() == self.key_view(),
    ;
}

impl TableKey for String {
    type KeyView = Seq<char>;

    open spec fn key_view(&self) -> Seq<char> {
        self@
    }

    fn same_key(&self, other: &Self) -> (r: bool) {
        self.eq(other)
    }

    fn copy_key(&self) -> (r: Self) {
        self.clone()
    }
}

impl TableKey for u128 {
    type KeyView = u128;

    open spec fn key_view(&self) -> u128 {
        *self
    }

    fn same_key(&self, other: &Self) -> (r: bool) {
        *self == *other
    }

    fn copy_key(&self) -> (r: Self) {
        *self
    }
}

/// Values that can be copied, with what the copy keeps of the original.
pub trait Duplicate: Sized {
    /// What a copy keeps: `self` counts as a copy of `other`.
    spec fn same_as(&self, other: &Self) -> bool;

    /// A copy of the value.
    fn duplicate(&self) -> (r: Self)
        ensures
            r.same_as(self),
    ;
}

impl Duplicate for String {
    open spec fn same_as(&self, other: &Self) -> bool {
        *self == *other
    }

    fn duplicate(&self) -> (r: Self) {
        self.clone()
    }
}

/// The keys of a sequence of entries.
pub open spec fn keys_of<K: TableKey, V>(e: Seq<(K, V)>) -> Seq<K::KeyView> {
    e.map_values(|p: (K, V)| p.0.key_view())
}

/// No key occurs twice.
pub open spec fn unique_keys<K: TableKey, V>(e: Seq<(K, V)>) -> bool {
    forall|i: int, j: int|
        0 <= i < e.len() && 0 <= j < e.len() && i != j ==> e[i].0.key_view() != e[j].0.key_view()
}

/// The map that a sequence of entries stands for.
pub open spec fn map_of<K: TableKey, V>(e: Seq<(K, V)>) -> Map<K::KeyView, V>
    decreases e.len(),
{
    if e.len() == 0 {
        Map::empty()
    } else {
        map_of(e.drop_last()).insert(e.last().0.key_view(), e.last().1)
    }
}

/// Position of key `k` among the entries, or `-1`.
pub open spec fn index_of<K: TableKey, V>(e: Seq<(K, V)>, k: K::KeyView) -> int
    decreases e.len(),
{
    if e.len() == 0 {
        -1
    } else if e.last().0.key_view() == k {
        e.len() - 1
    } else {
        index_of(e.drop_last(), k)
    }
}

pub proof fn lemma_map_of_index<K: TableKey, V>(e: Seq<(K, V)>, k: K::KeyView)
    requires
        unique_keys(e),
    ensures
        -1 <= index_of(e, k) < e.len(),
        map_of(e).contains_key(k) == (index_of(e, k) >= 0),
        index_of(e, k) >= 0 ==> e[index_of(e, k)].0.key_view() == k && map_of(e)[k] == e[index_of(e, k)].1,
        index_of(e, k) < 0 ==> forall|i: int| 0 <= i < e.len() ==> e[i].0.key_view() != k,
        forall|i: int| 0 <= i < e.len() && e[i].0.key_view() == k ==> i == index_of(e, k),
        map_of(e).dom().finite(),
        map_of(e).dom().len() == e.len(),
    decreases e.len(),
{
    if e.len() > 0 {
        let d = e.drop_last();
        assert(unique_keys(d)) by {
            assert forall|i: int, j: int| 0 <= i < d.len() && 0 <= j < d.len() && i != j implies d[i].0.key_view() != d[j].0.key_view() by {
                assert(d[i] == e[i] && d[j] == e[j]);
            }
        }
        lemma_map_of_index(d, k);
        lemma_map_of_index(d, e.last().0.key_view());
        assert forall|i: int| 0 <= i < d.len() implies d[i].0.key_view() != e.last().0.key_view() by {
            assert(d[i] == e[i]);
            assert(e.last() == e[e.len() - 1]);
        }
        assert(!map_of(d).contains_key(e.last().0.key_view()));
        assert forall|i: int| 0 <= i < e.len() && e[i].0.key_view() == k implies i == index_of(e, k) by {
            if i < e.len() - 1 {
                assert(d[i] == e[i]);
            }
        }
        if index_of(e, k) < 0 {
            assert forall|i: int| 0 <= i < e.len() implies e[i].0.key_view() != k by {
                if i < e.len() - 1 {
                    assert(d[i] == e[i]);
                }
            }
        }
    }
}

/// A table from keys to values with distinct keys.
#[derive(Debug)]
pub struct Table<K: TableKey, V> {
    entries: Vec<(K, V)>,
}

impl<K: TableKey, V> Table<K, V> {
    /// The entries, in order.
    pub closed spec fn entries(self) -> Seq<(K, V)> {
        self.entries@
    }

    /// The table as a map.
    pub open spec fn view(self) -> Map<K::KeyView, V> {
        map_of(self.entries())
    }

    /// The keys, in entry order.
    pub open spec fn key_seq(self) -> Seq<K::KeyView> {
        keys_of(self.entries())
    }

    /// Keys are distinct: every table value keeps this.
    #[verifier::type_invariant]
    pub open spec fn wf(self) -> bool {
        unique_keys(self.entries())
    }

    /// Facts that follow from well-formedness.
    pub proof fn lemma_wf(self)
        requires
            self.wf(),
        ensures
            unique_keys(self.entries()),
            self.view().dom().finite(),
            self.view().dom().len() == self.entries().len(),
            forall|k: K::KeyView| #[trigger] self.view().contains_key(k) <==> self.key_seq().contains(k),
    {
        lemma_map_of_index(self.entries@, arbitrary());
        assert forall|k: K::KeyView| #[trigger] self.view().contains_key(k) <==> self.key_seq().contains(k) by {
            lemma_map_of_index(self.entries@, k);
            if self.key_seq().contains(k) {
                let i = choose|i: int| 0 <= i < self.key_seq().len() && self.key_seq()[i] == k;
                assert(self.entries@[i].0.key_view() == k);
            }
            if self.view().contains_key(k) {
                assert(self.key_seq()[index_of(self.entries@, k)] == k);
            }
        }
    }

    /// An empty table.
    pub fn new() -> (t: Self)
        ensures
            t.view() == Map::<K::KeyView, V>::empty(),
            t.entries().len() == 0,
    {
        Table { entries: Vec::new() }
    }

    /// Number of entries.
    pub fn len(&self) -> (n: usize)
        ensures
            n == self.entries().len(),
            n == self.view().dom().len(),
    {
        proof {
            use_type_invariant(self);
            lemma_map_of_index(self.entries@, arbitrary());
        }
        self.entries.len()
    }

    fn find(&self, key: &K) -> (r: Option<usize>)
        ensures
            r matches Some(i) ==> i == index_of(self.entries(), key.key_view()) && i < self.entries().len(),
            r is None ==> index_of(self.entries(), key.key_view()) < 0,
    {
        proof {
            use_type_invariant(self);
            lemma_map_of_index(self.entries@, key.key_view());
        }
        let mut i: usize = 0;
        while i < self.entries.len()
            invariant
                i <= self.entries@.len(),
                unique_keys(self.entries@),
                -1 <= index_of(self.entries@, key.key_view()) < self.entries@.len(),
                index_of(self.entries@, key.key_view()) >= 0 ==> self.entries@[index_of(self.entries@, key.key_view())].0.key_view() == key.key_view(),
                forall|j: int| 0 <= j < self.entries@.len() && self.entries@[j].0.key_view() == key.key_view() ==> j == index_of(self.entries@, key.key_view()),
                forall|j: int| 0 <= j < i ==> self.entries@[j].0.key_view() != key.key_view(),
            decreases self.entries.len() - i,
        {
            if self.entries[i].0.same_key(key) {
                return Some(i);
            }
            i = i + 1;
        }
        None
    }

    /// Whether `key` has an entry.
    pub fn contains_key(&self, key: &K) -> (r: bool)
        ensures
            r == self.view().contains_key(key.key_view()),
    {
        proof {
            use_type_invariant(self);
            lemma_map_of_index(self.entries@, key.key_view());
        }
        self.find(key).is_some()
    }

    /// The value stored under `key`.
    pub fn get(&self, key: &K) -> (r: Option<&V>)
        ensures
            r matches Some(v) ==> self.view().contains_key(key.key_view()) && *v == self.view()[key.key_view()],
            r is None ==> !self.view().contains_key(key.key_view()),
    {
        proof {
            use_type_invariant(self);
            lemma_map_of_index(self.entries@, key.key_view());
        }
        match self.find(key) {
            Some(i) => Some(&self.entries[i].1),
            None => None,
        }
    }

    /// The entry at position `i`.
    pub fn entry(&self, i: usize) -> (r: (&K, &V))
        requires
            i < self.entries().len(),
        ensures
            *r.0 == self.entries()[i as int].0,
            *r.1 == self.entries()[i as int].1,
    {
        (&self.entries[i].0, &self.entries[i].1)
    }

    /// Stores `value` under `key`, replacing any earlier value; a new key goes last.
    pub fn insert(&mut self, key: K, value: V)
        ensures
            final(self).view() == old(self).view().insert(key.key_view(), value),
            old(self).view().contains_key(key.key_view()) ==> final(self).key_seq() == old(self).key_seq(),
            !old(self).view().contains_key(key.key_view()) ==> final(self).key_seq() == old(self).key_seq().push(key.key_view()),
    {
        proof {
            use_type_invariant(&*self);
            lemma_map_of_index(self.entries@, key.key_view());
        }
        let ghost k = key.key_view();
        let ghost old_e = self.entries@;
        match self.find(&key) {
            Some(i) => {
                let mut entries = Vec::new();
                std::mem::swap(&mut entries, &mut self.entries);
                let ghost pre = entries@;
                entries.set(i, (key, value));
                proof {
                    assert forall|a: int, b: int| 0 <= a < entries@.len() && 0 <= b < entries@.len() && a != b implies entries@[a].0.key_view() != entries@[b].0.key_view() by {
                        if a != i && b != i {
                            assert(entries@[a] == pre[a] && entries@[b] == pre[b]);
                        } else if a == i {
                            assert(entries@[b] == pre[b]);
                        } else {
                            assert(entries@[a] == pre[a]);
                        }
                    }
                    lemma_map_of_update(pre, i as int, k, value);
                    assert(keys_of(entries@) =~= keys_of(pre));
                }
                self.entries = entries;
            },
            None => {
                let mut entries = Vec::new();
                std::mem::swap(&mut entries, &mut self.entries);
                let ghost pre = entries@;
                entries.push((key, value));
                proof {
                    assert forall|a: int, b: int| 0 <= a < entries@.len() && 0 <= b < entries@.len() && a != b implies entries@[a].0.key_view() != entries@[b].0.key_view() by {
                        if a < pre.len() && b < pre.len() {
                            assert(entries@[a] == pre[a] && entries@[b] == pre[b]);
                        } else if a < pre.len() {
                            assert(entries@[a] == pre[a]);
                        } else {
                            assert(entries@[b] == pre[b]);
                        }
                    }
                    assert(entries@.drop_last() =~= pre);
                    assert(keys_of(entries@) =~= keys_of(pre).push(k));
                }
                self.entries = entries;
            },
        }
    }

    /// The keys, in entry order.
    pub fn keys(&self) -> (r: Vec<K>)
        ensures
            r@.len() == self.key_seq().len(),
            forall|i: int| 0 <= i < r@.len() ==> #[trigger] r@[i].key_view() == self.key_seq()[i],
    {
        let mut r: Vec<K> = Vec::new();
        let mut i: usize = 0;
        while i < self.entries.len()
            invariant
                i <= self.entries@.len(),
                r@.len() == i,
                forall|j: int| 0 <= j < i ==> #[trigger] r@[j].key_view() == keys_of(self.entries@)[j],
            decreases self.entries.len() - i,
        {
            r.push(self.entries[i].0.copy_key());
            i = i + 1;
        }
        r
    }

    /// A copy of the table: the same keys in the same order, each value a copy.
    pub fn duplicate(&self) -> (r: Self)
        where V: Duplicate,
        ensures
            r.key_seq() == self.key_seq(),
            r.view().dom() == self.view().dom(),
            forall|k: K::KeyView| #[trigger] r.view().contains_key(k) ==> r.view()[k].same_as(&self.view()[k]),
    {
        proof {
            use_type_invariant(self);
        }
        let mut e: Vec<(K, V)> = Vec::new();
        let mut i: usize = 0;
        while i < self.entries.len()
            invariant
                i <= self.entries@.len(),
                e@.len() == i,
                unique_keys(self.entries@),
                forall|j: int| 0 <= j < i ==> (#[trigger] e@[j]).0.key_view() == self.entries@[j].0.key_view()
                    && e@[j].1.same_as(&self.entries@[j].1),
            decreases self.entries.len() - i,
        {
            let k = self.entries[i].0.copy_key();
            let v = self.entries[i].1.duplicate();
            e.push((k, v));
            i = i + 1;
        }
        proof {
            assert forall|a: int, b: int| 0 <= a < e@.len() && 0 <= b < e@.len() && a != b implies e@[a].0.key_view() != e@[b].0.key_view() by {
                assert(e@[a].0.key_view() == self.entries@[a].0.key_view());
                assert(e@[b].0.key_view() == self.entries@[b].0.key_view());
            }
            assert(keys_of(e@) =~= keys_of(self.entries@));
            lemma_same_keys(e@, self.entries@);
        }
        Table { entries: e }
    }

    /// Removes the entry of `key`, if any, returning its value; the others keep their order.
    pub fn remove(&mut self, key: &K) -> (r: Option<V>)
        ensures
            final(self).view() == old(self).view().remove(key.key_view()),
            r is Some == old(self).view().contains_key(key.key_view()),
            r matches Some(v) ==> v == old(self).view()[key.key_view()],
            final(self).key_seq() == old(self).key_seq().filter(|x: K::KeyView| x != key.key_view()),
    {
        proof {
            use_type_invariant(&*self);
            lemma_map_of_index(self.entries@, key.key_view());
        }
        let ghost k = key.key_view();
        match self.find(key) {
            Some(i) => {
                let mut entries = Vec::new();
                std::mem::swap(&mut entries, &mut self.entries);
                let ghost pre = entries@;
                let (_, v) = entries.remove(i);
                proof {
                    assert forall|a: int, b: int| 0 <= a < entries@.len() && 0 <= b < entries@.len() && a != b implies entries@[a].0.key_view() != entries@[b].0.key_view() by {
                        let a2 = if a < i { a } else { a + 1 };
                        let b2 = if b < i { b } else { b + 1 };
                        assert(entries@[a] == pre[a2] && entries@[b] == pre[b2]);
                    }
                    lemma_map_of_remove(pre, i as int);
                    lemma_keys_filter(pre, i as int, k);
                }
                self.entries = entries;
                Some(v)
            },
            None => {
                proof {
                    assert(!map_of(self.entries@).contains_key(k));
                    assert(map_of(self.entries@).remove(k) =~= map_of(self.entries@));
                    lemma_keys_filter_none(self.entries@, k);
                }
                None
            },
        }
    }
}

proof fn lemma_map_of_update<K: TableKey, V>(e: Seq<(K, V)>, i: int, k: K::KeyView, value: V)
    requires
        unique_keys(e),
        0 <= i < e.len(),
        e[i].0.key_view() == k,
    ensures
        forall|nk: K| nk.key_view() == k ==> #[trigger] map_of(e.update(i, (nk, value))) == map_of(e).insert(k, value),
    decreases e.len(),
{
    assert forall|nk: K| nk.key_view() == k implies #[trigger] map_of(e.update(i, (nk, value))) == map_of(e).insert(k, value) by {
        lemma_map_of_update_one(e, i, nk, value);
    }
}

proof fn lemma_map_of_update_one<K: TableKey, V>(e: Seq<(K, V)>, i: int, nk: K, value: V)
    requires
        unique_keys(e),
        0 <= i < e.len(),
        e[i].0.key_view() == nk.key_view(),
    ensures
        map_of(e.update(i, (nk, value))) == map_of(e).insert(nk.key_view(), value),
    decreases e.len(),
{
    let u = e.update(i, (nk, value));
    let d = e.drop_last();
    if i == e.len() - 1 {
        assert(u.drop_last() =~= d);
        assert(map_of(u) == map_of(d).insert(nk.key_view(), value));
        assert(map_of(e) == map_of(d).insert(nk.key_view(), e.last().1));
        assert(map_of(u) =~= map_of(e).insert(nk.key_view(), value));
    } else {
        assert(unique_keys(d)) by {
            assert forall|a: int, b: int| 0 <= a < d.len() && 0 <= b < d.len() && a != b implies d[a].0.key_view() != d[b].0.key_view() by {
                assert(d[a] == e[a] && d[b] == e[b]);
            }
        }
        lemma_map_of_update_one(d, i, nk, value);
        assert(u.drop_last() =~= d.update(i, (nk, value)));
        assert(u.last() == e.last());
        assert(e.last().0.key_view() != nk.key_view()) by {
            assert(e[e.len() - 1] == e.last());
        }
        assert(map_of(u) =~= map_of(e).insert(nk.key_view(), value));
    }
}

proof fn lemma_map_of_remove<K: TableKey, V>(e: Seq<(K, V)>, i: int)
    requires
        unique_keys(e),
        0 <= i < e.len(),
    ensures
        map_of(e.remove(i)) == map_of(e).remove(e[i].0.key_view()),
    decreases e.len(),
{
    let r = e.remove(i);
    let d = e.drop_last();
    let k = e[i].0.key_view();
    lemma_map_of_index(e, k);
    if i == e.len() - 1 {
        assert(r =~= d);
        lemma_map_of_index(d, k);
        assert forall|j: int| 0 <= j < d.len() implies d[j].0.key_view() != k by {
            assert(d[j] == e[j]);
        }
        assert(!map_of(d).contains_key(k));
        assert(map_of(r) =~= map_of(e).remove(k));
    } else {
        assert(unique_keys(d)) by {
            assert forall|a: int, b: int| 0 <= a < d.len() && 0 <= b < d.len() && a != b implies d[a].0.key_view() != d[b].0.key_view() by {
                assert(d[a] == e[a] && d[b] == e[b]);
            }
        }
        lemma_map_of_remove(d, i);
        assert(r.drop_last() =~= d.remove(i));
        assert(r.last() == e.last());
        assert(e.last().0.key_view() != k) by {
            assert(e[e.len() - 1] == e.last());
        }
        assert(map_of(r) =~= map_of(e).remove(k));
    }
}

proof fn lemma_keys_filter<K: TableKey, V>(e: Seq<(K, V)>, i: int, k: K::KeyView)
    requires
        unique_keys(e),
        0 <= i < e.len(),
        e[i].0.key_view() == k,
    ensures
        keys_of(e.remove(i)) == keys_of(e).filter(|x: K::KeyView| x != k),
    decreases e.len(),
{
    let f = |x: K::KeyView| x != k;
    let d = e.drop_last();
    assert(keys_of(e).drop_last() =~= keys_of(d));
    reveal(Seq::filter);
    if i == e.len() - 1 {
        assert(e.remove(i) =~= d);
        lemma_keys_filter_none(d, k);
        assert forall|j: int| 0 <= j < d.len() implies d[j].0.key_view() != k by {
            assert(d[j] == e[j]);
        }
        lemma_keys_filter_none(d, k);
    } else {
        assert(unique_keys(d)) by {
            assert forall|a: int, b: int| 0 <= a < d.len() && 0 <= b < d.len() && a != b implies d[a].0.key_view() != d[b].0.key_view() by {
                assert(d[a] == e[a] && d[b] == e[b]);
            }
        }
        lemma_keys_filter(d, i, k);
        assert(e.last().0.key_view() != k) by {
            assert(e[e.len() - 1] == e.last());
        }
        assert(keys_of(e.remove(i)) =~= keys_of(d.remove(i)).push(e.last().0.key_view()));
    }
}

proof fn lemma_keys_filter_none<K: TableKey, V>(e: Seq<(K, V)>, k: K::KeyView)
    requires
        forall|j: int| 0 <= j < e.len() ==> e[j].0.key_view() != k,
    ensures
        keys_of(e).filter(|x: K::KeyView| x != k) == keys_of(e),
    decreases e.len(),
{
    reveal(Seq::filter);
    if e.len() > 0 {
        let d = e.drop_last();
        assert forall|j: int| 0 <= j < d.len() implies d[j].0.key_view() != k by {
            assert(d[j] == e[j]);
        }
        lemma_keys_filter_none(d, k);
        assert(keys_of(e).drop_last() =~= keys_of(d));
        assert(e[e.len() - 1] == e.last());
        assert(keys_of(e) =~= keys_of(d).push(e.last().0.key_view()));
    } else {
        assert(keys_of(e).filter(|x: K::KeyView| x != k) =~= keys_of(e));
    }
}

proof fn lemma_same_keys<K: TableKey, V: Duplicate>(a: Seq<(K, V)>, b: Seq<(K, V)>)
    requires
        unique_keys(a),
        unique_keys(b),
        a.len() == b.len(),
        forall|j: int| 0 <= j < a.len() ==> (#[trigger] a[j]).0.key_view() == b[j].0.key_view() && a[j].1.same_as(&b[j].1),
    ensures
        map_of(a).dom() == map_of(b).dom(),
        forall|k: K::KeyView| #[trigger] map_of(a).contains_key(k) ==> map_of(a)[k].same_as(&map_of(b)[k]),
{
    assert forall|k: K::KeyView| #[trigger] map_of(a).contains_key(k) == map_of(b).contains_key(k)
        && (map_of(a).contains_key(k) ==> map_of(a)[k].same_as(&map_of(b)[k])) by {
        lemma_map_of_index(a, k);
        lemma_map_of_index(b, k);
        if index_of(a, k) >= 0 {
            assert(b[index_of(a, k)].0.key_view() == k);
        }
        if index_of(b, k) >= 0 {
            assert(a[index_of(b, k)].0.key_view() == k);
        }
    }
    assert(map_of(a).dom() =~= map_of(b).dom());
}

} // verus!
