//! Tree scanner: builds the deterministic, filtered, ordered snapshot of
//! a directory tree from its raw enumeration.

use crate::classify::{is_visible, spec_visible, EntryKind};
use crate::node::{lemma_node_models_index, node_model, node_models, NodeModel, ProjectNode};
use crate::order::{
    key_le, lemma_sort_nodes_permutes, lemma_sort_nodes_sorted, sort_nodes, sort_nodes_vec,
    sorted_siblings,
};
use crate::text::{lex_lt, lower_of};
use vstd::prelude::*;

verus! {

/// A raw directory entry as enumerated from the filesystem, before
/// filtering and ordering: its path, base name, kind, and, for a
/// directory, the raw entries it contains. A file's children list is
/// empty.
pub struct RawEntry {
    pub path: String,
    pub name: String,
    pub kind: EntryKind,
    pub children: Vec<RawEntry>,
}

/// Snapshot of one visible raw entry: a directory's children are scanned
/// in turn, a file carries none.
pub open spec fn scan_entry(e: RawEntry) -> NodeModel
    decreases e, 0int,
{
    NodeModel {
        path: e.path@,
        name: e.name@,
        is_dir: e.kind is Directory,
        children: if e.kind is Directory {
            Some(scan_seq(e.children@))
        } else {
            None
        },
    }
}

/// Snapshots of the visible entries among `s[i..]`, in enumeration order.
pub open spec fn scan_filtered_from(s: Seq<RawEntry>, i: int) -> Seq<NodeModel>
    decreases s, s.len() - i,
{
    if i < 0 || i >= s.len() {
        Seq::empty()
    } else if spec_visible(s[i].name@) {
        seq![scan_entry(s[i])] + scan_filtered_from(s, i + 1)
    } else {
        scan_filtered_from(s, i + 1)
    }
}

/// The snapshot of a raw sibling list: its visible entries, ordered by
/// the deterministic sibling order.
pub open spec fn scan_seq(s: Seq<RawEntry>) -> Seq<NodeModel>
    decreases s, s.len() + 1,
{
    sort_nodes(scan_filtered_from(s, 0))
}

/// Builds the snapshot of a raw sibling list: excluded entries are
/// dropped and never recursed into, each visible directory is scanned
/// recursively, and the siblings are ordered by the deterministic order.
pub fn scan_tree(entries: &Vec<RawEntry>) -> (out: Vec<ProjectNode>)
    ensures
        node_models(out@) == scan_seq(entries@),
    decreases entries@,
{
    let mut filtered: Vec<ProjectNode> = Vec::new();
    let mut i: usize = 0;
    proof {
        lemma_node_models_index(filtered@);
        assert(scan_filtered_from(entries@, 0) =~= node_models(filtered@) + scan_filtered_from(
            entries@,
            0,
        ));
    }
    while i < entries.len()
        invariant
            i <= entries@.len(),
            scan_filtered_from(entries@, 0) == node_models(filtered@) + scan_filtered_from(
                entries@,
                i as int,
            ),
        decreases entries@.len() - i,
    {
        let e = &entries[i];
        if is_visible(&e.name) {
            let children = if matches!(e.kind, EntryKind::Directory) {
                Some(scan_tree(&e.children))
            } else {
                None
            };
            let n = ProjectNode {
                path: e.path.clone(),
                name: e.name.clone(),
                kind: e.kind,
                children,
            };
            proof {
                assert(node_model(n) == scan_entry(entries@[i as int]));
            }
            let ghost before = filtered@;
            filtered.push(n);
            proof {
                lemma_node_models_index(before);
                lemma_node_models_index(filtered@);
                assert(node_models(filtered@) =~= node_models(before) + seq![node_model(n)]);
                assert(scan_filtered_from(entries@, 0) =~= node_models(filtered@)
                    + scan_filtered_from(entries@, i + 1));
            }
        }
        i = i + 1;
    }
    proof {
        assert(scan_filtered_from(entries@, 0) =~= node_models(filtered@));
    }
    sort_nodes_vec(filtered)
}

/// A snapshot node is well formed: its name is visible, and its children,
/// if present, form a well-formed snapshot list.
pub open spec fn snapshot_node_wf(n: NodeModel) -> bool
    decreases n, 0int,
{
    &&& spec_visible(n.name)
    &&& match n.children {
        Some(c) => snapshot_list_wf(c),
        None => true,
    }
}

/// A snapshot sibling list is well formed: ordered by the deterministic
/// sibling order, with every node in it well formed. Both facts therefore
/// hold at every depth of a well-formed snapshot.
pub open spec fn snapshot_list_wf(s: Seq<NodeModel>) -> bool
    decreases s, 1int,
{
    &&& sorted_siblings(s)
    &&& forall|k: int| 0 <= k < s.len() ==> snapshot_node_wf(#[trigger] s[k])
}

proof fn lemma_scan_filtered_wf(s: Seq<RawEntry>, i: int)
    requires
        0 <= i <= s.len(),
    ensures
        forall|k: int| 0 <= k < scan_filtered_from(s, i).len() ==> snapshot_node_wf(
            #[trigger] scan_filtered_from(s, i)[k],
        ),
    decreases s, s.len() - i,
{
    if i < s.len() {
        lemma_scan_filtered_wf(s, i + 1);
        let rest = scan_filtered_from(s, i + 1);
        if spec_visible(s[i].name@) {
            if s[i].kind is Directory {
                lemma_scan_snapshot_wf(s[i].children@);
            }
            assert(snapshot_node_wf(scan_entry(s[i])));
            let out = scan_filtered_from(s, i);
            assert forall|k: int| 0 <= k < out.len() implies snapshot_node_wf(out[k]) by {
                if k > 0 {
                    assert(out[k] == rest[k - 1]);
                }
            }
        }
    }
}

/// Every snapshot the scanner produces is well formed: at every depth the
/// siblings are ordered by the deterministic sibling order, and no hidden
/// or excluded name appears.
pub proof fn lemma_scan_snapshot_wf(s: Seq<RawEntry>)
    ensures
        snapshot_list_wf(scan_seq(s)),
    decreases s, s.len() + 1,
{
    lemma_scan_filtered_wf(s, 0);
    lemma_sort_nodes_sorted(scan_filtered_from(s, 0), |n: NodeModel| snapshot_node_wf(n));
}

/// A scanned snapshot loses nothing besides the excluded entries: it is
/// a permutation of the visible entries' snapshots in enumeration order.
pub proof fn lemma_scan_complete(s: Seq<RawEntry>)
    ensures
        scan_seq(s).to_multiset() == scan_filtered_from(s, 0).to_multiset(),
{
    lemma_sort_nodes_permutes(scan_filtered_from(s, 0));
}

/// How many entries of `s[i..]` are visible.
pub open spec fn count_visible_from(s: Seq<RawEntry>, i: int) -> int
    decreases s.len() - i,
{
    if i < 0 || i >= s.len() {
        0
    } else {
        (if spec_visible(s[i].name@) {
            1int
        } else {
            0int
        }) + count_visible_from(s, i + 1)
    }
}

proof fn lemma_scan_filtered_len(s: Seq<RawEntry>, i: int)
    requires
        0 <= i <= s.len(),
    ensures
        scan_filtered_from(s, i).len() == count_visible_from(s, i),
    decreases s.len() - i,
{
    if i < s.len() {
        lemma_scan_filtered_len(s, i + 1);
    }
}

/// A scan drops exactly the excluded entries: the snapshot holds one
/// node for each visible raw entry of the sibling list.
pub proof fn lemma_scan_len(s: Seq<RawEntry>)
    ensures
        scan_seq(s).len() == count_visible_from(s, 0),
{
    lemma_scan_filtered_len(s, 0);
    lemma_sort_nodes_sorted(scan_filtered_from(s, 0), |n: NodeModel| true);
}

/// Scanning is deterministic: two scans of an unchanged tree produce the
/// identical snapshot, so a scan is idempotent absent external mutation.
pub proof fn lemma_scan_deterministic(a: Seq<RawEntry>, b: Seq<RawEntry>)
    requires
        a == b,
    ensures
        scan_seq(a) == scan_seq(b),
{
}

/// The sibling order in any scanned snapshot: every directory comes
/// before every file, and within one kind the lower-case foldings of the
/// names ascend in the lexicographic order.
pub proof fn lemma_scan_sibling_order(s: Seq<RawEntry>)
    ensures
        forall|i: int, j: int|
            0 <= i < j < scan_seq(s).len() && !scan_seq(s)[i].is_dir ==> !scan_seq(s)[j].is_dir,
        forall|i: int, j: int|
            0 <= i < j < scan_seq(s).len() && scan_seq(s)[i].is_dir == scan_seq(s)[j].is_dir
                ==> !lex_lt(lower_of(scan_seq(s)[j].name), lower_of(scan_seq(s)[i].name)),
{
    lemma_scan_snapshot_wf(s);
    let out = scan_seq(s);
    assert forall|i: int, j: int|
        0 <= i < j < out.len() && !out[i].is_dir implies !out[j].is_dir by {
        assert(key_le(out[i], out[j]));
    }
    assert forall|i: int, j: int|
        0 <= i < j < out.len() && out[i].is_dir == out[j].is_dir implies !lex_lt(
        lower_of(out[j].name),
        lower_of(out[i].name),
    ) by {
        assert(key_le(out[i], out[j]));
    }
}

/// No hidden or excluded name appears anywhere in a scanned snapshot.
pub proof fn lemma_scan_only_visible(s: Seq<RawEntry>)
    ensures
        forall|k: int| 0 <= k < scan_seq(s).len() ==> spec_visible(
            #[trigger] scan_seq(s)[k].name,
        ),
{
    lemma_scan_snapshot_wf(s);
}

} // verus!
