//! Searching parsed syntax trees. A tree is given as plain nodes: each with its kind
//! (such as `command` or `variable_name`), its byte range in the source, and its
//! children in order. Parsing source text into such a tree is left to the caller.
use vstd::prelude::*;
use crate::text::{concat, string_views};

verus! {

/// A node of a syntax tree.
#[derive(Debug)]
pub struct SyntaxNode {
    pub kind: String,
    pub start_byte: usize,
    pub end_byte: usize,
    pub children: Vec<SyntaxNode>,
}

/// The nodes of a tree in depth-first order: a node, then its children's subtrees in
/// order.
pub open spec fn preorder(n: SyntaxNode) -> Seq<SyntaxNode>
    decreases n, 1int,
{
    seq![n] + preorder_list(n.children@)
}

/// The depth-first order of a list of subtrees, one after the other.
pub open spec fn preorder_list(ns: Seq<SyntaxNode>) -> Seq<SyntaxNode>
    decreases ns, 0int,
{
    if ns.len() == 0 {
        Seq::empty()
    } else {
        preorder(ns[0]) + preorder_list(ns.drop_first())
    }
}

/// The nodes of `s` whose kind is `kind`, in order.
pub open spec fn of_kind(s: Seq<SyntaxNode>, kind: Seq<char>) -> Seq<SyntaxNode>
    decreases s.len(),
{
    if s.len() == 0 {
        Seq::empty()
    } else if s.last().kind@ == kind {
        of_kind(s.drop_last(), kind).push(s.last())
    } else {
        of_kind(s.drop_last(), kind)
    }
}

/// The nodes a list of references points to.
pub open spec fn derefs(v: Seq<&SyntaxNode>) -> Seq<SyntaxNode> {
    v.map_values(|r: &SyntaxNode| *r)
}

proof fn lemma_of_kind_concat(a: Seq<SyntaxNode>, b: Seq<SyntaxNode>, kind: Seq<char>)
    ensures
        of_kind(a + b, kind) == of_kind(a, kind) + of_kind(b, kind),
    decreases b.len(),
{
    if b.len() == 0 {
        assert(a + b =~= a);
        assert(of_kind(a, kind) + of_kind(b, kind) =~= of_kind(a, kind));
    } else {
        lemma_of_kind_concat(a, b.drop_last(), kind);
        assert((a + b).drop_last() =~= a + b.drop_last());
        assert((a + b).last() == b.last());
    }
}

proof fn lemma_preorder_list_push(ns: Seq<SyntaxNode>, n: SyntaxNode)
    ensures
        preorder_list(ns.push(n)) == preorder_list(ns) + preorder(n),
    decreases ns.len(),
{
    if ns.len() == 0 {
        assert(ns.push(n).drop_first() =~= Seq::<SyntaxNode>::empty());
        assert(preorder_list(ns.push(n)) =~= preorder(n) + preorder_list(Seq::<SyntaxNode>::empty()));
        assert(preorder_list(ns.push(n)) =~= preorder_list(ns) + preorder(n));
    } else {
        lemma_preorder_list_push(ns.drop_first(), n);
        assert(ns.push(n).drop_first() =~= ns.drop_first().push(n));
        assert(ns.push(n)[0] == ns[0]);
        assert(preorder_list(ns.push(n)) =~= preorder(ns[0]) + (preorder_list(ns.drop_first()) + preorder(n)));
    }
}

fn collect<'a>(n: &'a SyntaxNode, kind: &str, out: &mut Vec<&'a SyntaxNode>)
    ensures
        derefs(final(out)@) == derefs(old(out)@) + of_kind(preorder(*n), kind@),
    decreases n,
{
    let ghost start = derefs(out@);
    proof {
        lemma_of_kind_concat(seq![*n], preorder_list(n.children@), kind@);
        assert(seq![*n].drop_last() =~= Seq::<SyntaxNode>::empty());
    }
    let ghost v0 = out@;
    let ghost one = seq![*n];
    assert(one.len() == 1 && one.last() == *n);
    assert(one.drop_last() =~= Seq::<SyntaxNode>::empty());
    assert(of_kind(Seq::<SyntaxNode>::empty(), kind@) == Seq::<SyntaxNode>::empty());
    if n.kind.eq(&crate::text::owned(kind)) {
        out.push(n);
        assert(out@ == v0.push(n));
        assert(derefs(out@) =~= start.push(*n));
        assert(of_kind(seq![*n], kind@) =~= seq![*n]);
    } else {
        assert(of_kind(seq![*n], kind@) =~= Seq::<SyntaxNode>::empty());
    }
    assert(derefs(out@) =~= start + of_kind(seq![*n], kind@));
    let mut i: usize = 0;
    assert(n.children@.take(0) =~= Seq::<SyntaxNode>::empty());
    while i < n.children.len()
        invariant
            i <= n.children@.len(),
            derefs(out@) == start + of_kind(seq![*n], kind@) + of_kind(preorder_list(n.children@.take(i as int)), kind@),
        decreases n.children.len() - i,
    {
        
        let child = &n.children[i];
        collect(child, kind, out);
        proof {
            assert(n.children@.take(i + 1) =~= n.children@.take(i as int).push(*child));
            lemma_preorder_list_push(n.children@.take(i as int), *child);
            lemma_of_kind_concat(preorder_list(n.children@.take(i as int)), preorder(*child), kind@);
        }
        assert(derefs(out@) =~= start + of_kind(seq![*n], kind@) + of_kind(preorder_list(n.children@.take(i + 1)), kind@));
        i = i + 1;
    }
    assert(n.children@.take(n.children@.len() as int) =~= n.children@);
    assert(derefs(out@) =~= derefs(old(out)@) + of_kind(preorder(*n), kind@));
}

/// Every node of the tree whose kind is `kind`, in depth-first order.
pub fn find_nodes_by_kind<'a>(root: &'a SyntaxNode, kind: &str) -> (r: Vec<&'a SyntaxNode>)
    ensures
        derefs(r@) == of_kind(preorder(*root), kind@),
{
    let mut out: Vec<&'a SyntaxNode> = Vec::new();
    collect(root, kind, &mut out);
    assert(derefs(out@) =~= of_kind(preorder(*root), kind@));
    out
}

/// The outline of a tree: one line per node in depth-first order, each the node's kind
/// after `prefix` and two more spaces for every level below the root.
pub open spec fn outline(n: SyntaxNode, prefix: Seq<char>) -> Seq<Seq<char>>
    decreases n, 1int,
{
    seq![prefix + n.kind@] + outline_list(n.children@, prefix + seq![' ', ' '])
}

/// The outlines of a list of sibling subtrees, one after the other.
pub open spec fn outline_list(ns: Seq<SyntaxNode>, prefix: Seq<char>) -> Seq<Seq<char>>
    decreases ns, 0int,
{
    if ns.len() == 0 {
        Seq::empty()
    } else {
        outline(ns[0], prefix) + outline_list(ns.drop_first(), prefix)
    }
}

proof fn lemma_outline_list_push(ns: Seq<SyntaxNode>, n: SyntaxNode, prefix: Seq<char>)
    ensures
        outline_list(ns.push(n), prefix) == outline_list(ns, prefix) + outline(n, prefix),
    decreases ns.len(),
{
    if ns.len() == 0 {
        assert(ns.push(n).drop_first() =~= Seq::<SyntaxNode>::empty());
        assert(outline_list(ns.push(n), prefix) =~= outline(n, prefix) + outline_list(Seq::<SyntaxNode>::empty(), prefix));
        assert(outline_list(ns.push(n), prefix) =~= outline_list(ns, prefix) + outline(n, prefix));
    } else {
        lemma_outline_list_push(ns.drop_first(), n, prefix);
        assert(ns.push(n).drop_first() =~= ns.drop_first().push(n));
        assert(ns.push(n)[0] == ns[0]);
        assert(outline_list(ns.push(n), prefix) =~= outline(ns[0], prefix) + (outline_list(ns.drop_first(), prefix) + outline(n, prefix)));
    }
}

fn outline_into(n: &SyntaxNode, prefix: &str, out: &mut Vec<String>)
    ensures
        string_views(final(out)@) == string_views(old(out)@) + outline(*n, prefix@),
    decreases n,
{
    let ghost start = string_views(out@);
    let line = concat(prefix, n.kind.as_str());
    out.push(line);
    assert(string_views(out@) =~= start + seq![prefix@ + n.kind@]);
    let deeper = concat(prefix, "  ");
    proof {
        reveal_strlit("  ");
    }
    assert(deeper@ =~= prefix@ + seq![' ', ' ']);
    let mut i: usize = 0;
    assert(n.children@.take(0) =~= Seq::<SyntaxNode>::empty());
    while i < n.children.len()
        invariant
            i <= n.children@.len(),
            deeper@ == prefix@ + seq![' ', ' '],
            string_views(out@) == start + seq![prefix@ + n.kind@] + outline_list(n.children@.take(i as int), deeper@),
        decreases n.children.len() - i,
    {
        let child = &n.children[i];
        outline_into(child, deeper.as_str(), out);
        proof {
            assert(n.children@.take(i + 1) =~= n.children@.take(i as int).push(*child));
            lemma_outline_list_push(n.children@.take(i as int), *child, deeper@);
        }
        assert(string_views(out@) =~= start + seq![prefix@ + n.kind@] + outline_list(n.children@.take(i + 1), deeper@));
        i = i + 1;
    }
    assert(n.children@.take(n.children@.len() as int) =~= n.children@);
    assert(string_views(out@) =~= string_views(old(out)@) + outline(*n, prefix@));
}

/// The structure of a tree as text lines: every node in depth-first order, its kind
/// indented by two spaces per level below the root.
pub fn print_tree_structure(root: &SyntaxNode) -> (lines: Vec<String>)
    ensures
        string_views(lines@) == outline(*root, Seq::empty()),
{
    let mut out: Vec<String> = Vec::new();
    proof {
        reveal_strlit("");
    }
    outline_into(root, "", &mut out);
    assert(string_views(out@) =~= outline(*root, Seq::empty()));
    out
}

} // verus!
