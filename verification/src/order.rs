//! The deterministic sibling order of a snapshot: directories sort before
//! files, and within a kind names compare case-insensitively, by the code
//! points of their lower-case foldings. The sort is stable, so siblings
//! whose folded names tie keep their enumeration order.

use crate::classify::EntryKind;
use crate::node::{
    lemma_node_models_index, node_model, node_models, NodeModel, ProjectNode,
};
use crate::text::{lemma_lex_le_lt_trans, lemma_lex_lt_asym, lex_lt, lower_of, name_lt};
use vstd::prelude::*;

verus! {

/// The strict sibling order: a directory comes before a file; within a
/// kind, the name whose lower-case folding is lexicographically smaller
/// comes first.
pub open spec fn key_lt(a: NodeModel, b: NodeModel) -> bool {
    if a.is_dir && !b.is_dir {
        true
    } else if a.is_dir == b.is_dir {
        lex_lt(lower_of(a.name), lower_of(b.name))
    } else {
        false
    }
}

/// The weak sibling order: `a` need not come after `b`.
pub open spec fn key_le(a: NodeModel, b: NodeModel) -> bool {
    !key_lt(b, a)
}

/// A sibling sequence ordered by the weak sibling order.
pub open spec fn sorted_siblings(s: Seq<NodeModel>) -> bool {
    forall|i: int, j: int| 0 <= i < j < s.len() ==> key_le(s[i], s[j])
}

pub proof fn lemma_key_lt_asym(a: NodeModel, b: NodeModel)
    ensures
        !(key_lt(a, b) && key_lt(b, a)),
{
    lemma_lex_lt_asym(lower_of(a.name), lower_of(b.name), 0);
}

pub proof fn lemma_key_le_lt_trans(a: NodeModel, b: NodeModel, c: NodeModel)
    requires
        key_le(a, b),
        key_lt(b, c),
    ensures
        key_lt(a, c),
{
    if a.is_dir == b.is_dir && b.is_dir == c.is_dir {
        lemma_lex_le_lt_trans(lower_of(a.name), lower_of(b.name), lower_of(c.name), 0);
    }
}

/// Inserts a node behind every strictly smaller element of an ordered
/// sequence and in front of every element tied with or larger than it,
/// which keeps the insertion stable.
pub open spec fn insert_node(m: NodeModel, s: Seq<NodeModel>) -> Seq<NodeModel>
    decreases s.len(),
{
    if s.len() == 0 {
        seq![m]
    } else if key_lt(s[0], m) {
        seq![s[0]] + insert_node(m, s.drop_first())
    } else {
        seq![m] + s
    }
}

/// The position at which `insert_node` places its node.
pub open spec fn insert_pos(m: NodeModel, s: Seq<NodeModel>) -> int
    decreases s.len(),
{
    if s.len() == 0 {
        0
    } else if key_lt(s[0], m) {
        1 + insert_pos(m, s.drop_first())
    } else {
        0
    }
}

/// Characterizes insertion: the node lands at `insert_pos`, behind the
/// strictly smaller prefix and in front of the rest.
pub proof fn lemma_insert_node_at(m: NodeModel, s: Seq<NodeModel>)
    ensures
        0 <= insert_pos(m, s) <= s.len(),
        forall|j: int| 0 <= j < insert_pos(m, s) ==> key_lt(s[j], m),
        insert_pos(m, s) < s.len() ==> !key_lt(s[insert_pos(m, s)], m),
        insert_node(m, s) == s.subrange(0, insert_pos(m, s)) + seq![m] + s.subrange(
            insert_pos(m, s),
            s.len() as int,
        ),
    decreases s.len(),
{
    let p = insert_pos(m, s);
    if s.len() == 0 {
        assert(insert_node(m, s) =~= s.subrange(0, p) + seq![m] + s.subrange(p, s.len() as int));
    } else if key_lt(s[0], m) {
        lemma_insert_node_at(m, s.drop_first());
        let rest = s.drop_first();
        let q = insert_pos(m, rest);
        assert forall|j: int| 0 <= j < p implies key_lt(s[j], m) by {
            if j > 0 {
                assert(rest[j - 1] == s[j]);
            }
        }
        assert(s.subrange(1, p) =~= rest.subrange(0, q));
        assert(s.subrange(p, s.len() as int) =~= rest.subrange(q, rest.len() as int));
        assert(insert_node(m, s) =~= s.subrange(0, p) + seq![m] + s.subrange(p, s.len() as int));
    } else {
        assert(insert_node(m, s) =~= s.subrange(0, p) + seq![m] + s.subrange(p, s.len() as int));
    }
}

/// Inserting a node that satisfies a predicate into an ordered sequence
/// whose elements all satisfy it keeps the sequence ordered, lengthens it
/// by one, and yields only elements that satisfy the predicate.
pub proof fn lemma_insert_node_sorted(m: NodeModel, s: Seq<NodeModel>, pred: spec_fn(NodeModel) -> bool)
    requires
        sorted_siblings(s),
        pred(m),
        forall|k: int| 0 <= k < s.len() ==> pred(#[trigger] s[k]),
    ensures
        sorted_siblings(insert_node(m, s)),
        insert_node(m, s).len() == s.len() + 1,
        forall|j: int| 0 <= j < insert_node(m, s).len() ==> pred(#[trigger] insert_node(m, s)[j]),
{
    lemma_insert_node_at(m, s);
    let p = insert_pos(m, s);
    let out = insert_node(m, s);
    assert forall|i: int, j: int| 0 <= i < j < out.len() implies key_le(out[i], out[j]) by {
        if i < p && j == p {
            lemma_key_lt_asym(s[i], m);
        } else if i == p && j > p {
            if key_lt(s[j - 1], m) {
                lemma_key_le_lt_trans(s[p], s[j - 1], m);
            }
        } else if i < p && j > p {
            assert(out[i] == s[i] && out[j] == s[j - 1]);
        }
    }
    assert forall|j: int| 0 <= j < out.len() implies pred(out[j]) by {
        if j < p {
            assert(out[j] == s[j]);
        } else if j > p {
            assert(out[j] == s[j - 1]);
        } else {
            assert(out[j] == m);
        }
    }
}

/// Sorts a sibling sequence from position `i` on by repeated stable
/// insertion.
pub open spec fn sort_from(s: Seq<NodeModel>, i: int) -> Seq<NodeModel>
    decreases s.len() - i,
{
    if i < 0 || i >= s.len() {
        Seq::empty()
    } else {
        insert_node(s[i], sort_from(s, i + 1))
    }
}

/// The deterministic sibling order of a whole sibling sequence.
pub open spec fn sort_nodes(s: Seq<NodeModel>) -> Seq<NodeModel> {
    sort_from(s, 0)
}

/// Sorting orders the siblings, keeps their number, and preserves any
/// predicate that all of them satisfy.
pub proof fn lemma_sort_from_sorted(s: Seq<NodeModel>, i: int, pred: spec_fn(NodeModel) -> bool)
    requires
        0 <= i <= s.len(),
        forall|k: int| 0 <= k < s.len() ==> pred(#[trigger] s[k]),
    ensures
        sorted_siblings(sort_from(s, i)),
        sort_from(s, i).len() == s.len() - i,
        forall|j: int| 0 <= j < sort_from(s, i).len() ==> pred(#[trigger] sort_from(s, i)[j]),
    decreases s.len() - i,
{
    if i < s.len() {
        lemma_sort_from_sorted(s, i + 1, pred);
        lemma_insert_node_sorted(s[i], sort_from(s, i + 1), pred);
    }
}

/// Sorting a sibling sequence orders it, keeps its length, and preserves
/// any predicate that all of its elements satisfy.
pub proof fn lemma_sort_nodes_sorted(s: Seq<NodeModel>, pred: spec_fn(NodeModel) -> bool)
    requires
        forall|k: int| 0 <= k < s.len() ==> pred(#[trigger] s[k]),
    ensures
        sorted_siblings(sort_nodes(s)),
        sort_nodes(s).len() == s.len(),
        forall|j: int| 0 <= j < sort_nodes(s).len() ==> pred(#[trigger] sort_nodes(s)[j]),
{
    lemma_sort_from_sorted(s, 0, pred);
}

proof fn lemma_sort_from_multiset(s: Seq<NodeModel>, i: int)
    requires
        0 <= i <= s.len(),
    ensures
        sort_from(s, i).to_multiset() == s.subrange(i, s.len() as int).to_multiset(),
    decreases s.len() - i,
{
    if i < s.len() {
        lemma_sort_from_multiset(s, i + 1);
        lemma_insert_node_at(s[i], sort_from(s, i + 1));
        let rest = sort_from(s, i + 1);
        let p = insert_pos(s[i], rest);
        assert(sort_from(s, i) =~= rest.insert(p, s[i]));
        vstd::seq_lib::to_multiset_insert(rest, p, s[i]);
        let tail = s.subrange(i + 1, s.len() as int);
        assert(s.subrange(i, s.len() as int) =~= tail.insert(0, s[i]));
        vstd::seq_lib::to_multiset_insert(tail, 0, s[i]);
    } else {
        assert(s.subrange(i, s.len() as int) =~= Seq::<NodeModel>::empty());
    }
}

/// Sorting permutes the siblings: the ordered sequence holds exactly the
/// input's elements, each as often as it occurred.
pub proof fn lemma_sort_nodes_permutes(s: Seq<NodeModel>)
    ensures
        sort_nodes(s).to_multiset() == s.to_multiset(),
{
    lemma_sort_from_multiset(s, 0);
    assert(s.subrange(0, s.len() as int) =~= s);
}

/// Decides the strict sibling order on two snapshot nodes.
pub fn node_lt(a: &ProjectNode, b: &ProjectNode) -> (r: bool)
    ensures
        r == key_lt(node_model(*a), node_model(*b)),
{
    let a_dir = matches!(a.kind, EntryKind::Directory);
    let b_dir = matches!(b.kind, EntryKind::Directory);
    if a_dir && !b_dir {
        true
    } else if a_dir == b_dir {
        name_lt(&a.name, &b.name)
    } else {
        false
    }
}

/// Inserts a node into an ordered sibling list, behind every strictly
/// smaller sibling and in front of ties, keeping the list ordered.
pub fn insert_node_vec(v: &mut Vec<ProjectNode>, n: ProjectNode)
    ensures
        node_models(final(v)@) == insert_node(node_model(n), node_models(old(v)@)),
{
    let ghost s = node_models(old(v)@);
    let ghost m = node_model(n);
    proof {
        lemma_node_models_index(old(v)@);
        lemma_insert_node_at(m, s);
    }
    let mut p: usize = 0;
    loop
        invariant
            p <= v.len(),
            v == old(v),
            forall|j: int| 0 <= j < p ==> key_lt(s[j], m),
            s == node_models(v@),
            s.len() == v@.len(),
            forall|k: int| 0 <= k < v@.len() ==> s[k] == node_model(v@[k]),
            m == node_model(n),
        ensures
            p <= v.len(),
            v == old(v),
            forall|j: int| 0 <= j < p ==> key_lt(s[j], m),
            p < v@.len() ==> !key_lt(s[p as int], m),
        decreases v.len() - p,
    {
        if p >= v.len() {
            break;
        }
        if !node_lt(&v[p], &n) {
            break;
        }
        p = p + 1;
    }
    proof {
        let q = insert_pos(m, s);
        if p < q {
            assert(key_lt(s[p as int], m));
            assert(false);
        }
        if q < p {
            assert(key_lt(s[q], m));
            assert(false);
        }
    }
    v.insert(p, n);
    proof {
        lemma_node_models_index(v@);
        lemma_node_models_index(old(v)@);
        assert(node_models(v@) =~= insert_node(m, s));
    }
}

/// Orders a sibling list by the deterministic sibling order, stably.
pub fn sort_nodes_vec(input: Vec<ProjectNode>) -> (out: Vec<ProjectNode>)
    ensures
        node_models(out@) == sort_nodes(node_models(input@)),
{
    let ghost s = node_models(input@);
    proof {
        lemma_node_models_index(input@);
    }
    let mut rest = input;
    let mut out: Vec<ProjectNode> = Vec::new();
    let mut i: usize = rest.len();
    proof {
        assert(node_models(out@) =~= sort_from(s, i as int));
    }
    loop
        invariant
            i == rest@.len(),
            i <= s.len(),
            forall|k: int| 0 <= k < i ==> s[k] == node_model(rest@[k]),
            node_models(out@) == sort_from(s, i as int),
        ensures
            node_models(out@) == sort_from(s, 0),
        decreases i,
    {
        if i == 0 {
            break;
        }
        let n = rest.pop().unwrap();
        i = i - 1;
        proof {
            assert(node_model(n) == s[i as int]);
        }
        insert_node_vec(&mut out, n);
        proof {
            assert(node_models(out@) =~= sort_from(s, i as int));
        }
    }
    out
}

} // verus!
