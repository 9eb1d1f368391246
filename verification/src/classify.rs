//! Classifies a single directory entry: its kind, and whether it is
//! visible in a snapshot or excluded by the filtering policy.

use vstd::prelude::*;

verus! {

/// Kind of a filesystem entry as observed by the scanner.
#[derive(Clone, Copy, PartialEq, Eq, Structural, Debug)]
pub enum EntryKind {
    Directory,
    File,
}

/// A name is excluded when it is hidden (starts with `.`) or is one of
/// the fixed system directories that never belong in a snapshot.
pub open spec fn spec_visible(name: Seq<char>) -> bool {
    &&& !(name.len() > 0 && name[0] == '.')
    &&& name != "node_modules"@
    &&& name != "target"@
}

/// Decides whether a directory entry of this name may appear in a
/// snapshot. Excluded entries are never recursed into either.
pub fn is_visible(name: &String) -> (r: bool)
    ensures
        r == spec_visible(name@),
{
    let n = name.as_str();
    let len = n.unicode_len();
    if len > 0 && n.get_char(0) == '.' {
        return false;
    }
    let node_modules = String::from_str("node_modules");
    let target = String::from_str("target");
    if name.eq(&node_modules) || name.eq(&target) {
        return false;
    }
    true
}

} // verus!
