//! Snapshot nodes and their mathematical model.

use crate::classify::EntryKind;
use vstd::prelude::*;

verus! {

/// One entry of a snapshot: a file, or a directory together with its
/// ordered, filtered children. A directory whose `children` field is
/// `None` has not been expanded; the scanner always populates it, with
/// an empty sequence for an empty directory.
pub struct ProjectNode {
    pub path: String,
    pub name: String,
    pub kind: EntryKind,
    pub children: Option<Vec<ProjectNode>>,
}

/// Mathematical model of a snapshot node: the character sequences of its
/// path and name, its kind, and the models of its children.
pub struct NodeModel {
    pub path: Seq<char>,
    pub name: Seq<char>,
    pub is_dir: bool,
    pub children: Option<Seq<NodeModel>>,
}

/// Model of one node.
pub open spec fn node_model(n: ProjectNode) -> NodeModel
    decreases n, 0int,
{
    NodeModel {
        path: n.path@,
        name: n.name@,
        is_dir: n.kind is Directory,
        children: match n.children {
            Some(v) => Some(node_models(v@)),
            None => None,
        },
    }
}

/// Models of a node sequence, from position `i` on.
pub open spec fn node_models_from(s: Seq<ProjectNode>, i: int) -> Seq<NodeModel>
    decreases s, s.len() - i,
{
    if i < 0 || i >= s.len() {
        Seq::empty()
    } else {
        seq![node_model(s[i])] + node_models_from(s, i + 1)
    }
}

/// Models of a whole node sequence.
pub open spec fn node_models(s: Seq<ProjectNode>) -> Seq<NodeModel>
    decreases s, s.len() + 1,
{
    node_models_from(s, 0)
}

pub proof fn lemma_node_models_from(s: Seq<ProjectNode>, i: int)
    requires
        0 <= i <= s.len(),
    ensures
        node_models_from(s, i).len() == s.len() - i,
        forall|k: int| i <= k < s.len() ==> node_models_from(s, i)[k - i] == node_model(s[k]),
    decreases s.len() - i,
{
    if i < s.len() {
        lemma_node_models_from(s, i + 1);
    }
}

/// The model sequence indexes pointwise into the node sequence.
pub proof fn lemma_node_models_index(s: Seq<ProjectNode>)
    ensures
        node_models(s).len() == s.len(),
        forall|k: int| 0 <= k < s.len() ==> node_models(s)[k] == node_model(s[k]),
{
    lemma_node_models_from(s, 0);
}

} // verus!
