//! Path and name handling over plain strings.
//!
//! Paths are plain strings whose components are separated by `/`. Sibling
//! names order case-insensitively: each name is folded by Unicode lower
//! casing and the folded names compare lexicographically by code point
//! (the order their UTF-8 encodings also have).

use vstd::prelude::*;

verus! {

/// The lower-case folding of a character sequence.
pub uninterp spec fn lower_of(s: Seq<char>) -> Seq<char>;

/// Relies on str::to_lowercase: the result depends on the characters
/// alone, and is the Unicode lower-case folding of the input.
#[verifier::external_body]
fn lowercase(s: &str) -> (r: String)
    ensures
        r@ == lower_of(s@),
        s@.len() == 0 ==> r@.len() == 0,
{
    s.to_lowercase()
}

/// Strict lexicographic order by code point, read from position `i` on:
/// true when the suffix of `a` comes strictly before the suffix of `b`.
pub open spec fn lex_lt_from(a: Seq<char>, b: Seq<char>, i: int) -> bool
    decreases b.len() - i,
{
    if i < 0 || i >= b.len() {
        false
    } else if i >= a.len() {
        true
    } else if (a[i] as int) < (b[i] as int) {
        true
    } else if a[i] as int == b[i] as int {
        lex_lt_from(a, b, i + 1)
    } else {
        false
    }
}

/// Strict lexicographic order by code point on whole sequences.
pub open spec fn lex_lt(a: Seq<char>, b: Seq<char>) -> bool {
    lex_lt_from(a, b, 0)
}

/// The strict order is asymmetric: two names are never each strictly
/// before the other.
pub proof fn lemma_lex_lt_asym(a: Seq<char>, b: Seq<char>, i: int)
    ensures
        !(lex_lt_from(a, b, i) && lex_lt_from(b, a, i)),
    decreases b.len() - i,
{
    if 0 <= i < b.len() && i < a.len() && a[i] as int == b[i] as int {
        lemma_lex_lt_asym(a, b, i + 1);
    }
}

/// A name no larger than a second one comes strictly before whatever the
/// second comes strictly before.
pub proof fn lemma_lex_le_lt_trans(a: Seq<char>, b: Seq<char>, c: Seq<char>, i: int)
    requires
        !lex_lt_from(b, a, i),
        lex_lt_from(b, c, i),
    ensures
        lex_lt_from(a, c, i),
    decreases c.len() - i,
{
    if 0 <= i < c.len() && i < b.len() && i < a.len() {
        if a[i] as int == b[i] as int && b[i] as int == c[i] as int {
            lemma_lex_le_lt_trans(a, b, c, i + 1);
        }
    }
}

/// Decides the case-insensitive order on two names: their lower-case
/// foldings compare lexicographically by code point.
pub fn name_lt(a: &String, b: &String) -> (r: bool)
    ensures
        r == lex_lt(lower_of(a@), lower_of(b@)),
{
    let la = lowercase(a.as_str());
    let lb = lowercase(b.as_str());
    let la_str = la.as_str();
    let lb_str = lb.as_str();
    let la_len = la_str.unicode_len();
    let lb_len = lb_str.unicode_len();
    let mut i: usize = 0;
    loop
        invariant
            la_str@ == lower_of(a@),
            lb_str@ == lower_of(b@),
            la_len == la_str@.len(),
            lb_len == lb_str@.len(),
            lex_lt(lower_of(a@), lower_of(b@)) == lex_lt_from(la_str@, lb_str@, i as int),
        decreases lb_str@.len() - i,
    {
        if i >= lb_len {
            return false;
        }
        if i >= la_len {
            return true;
        }
        let ca = la_str.get_char(i) as u32;
        let cb = lb_str.get_char(i) as u32;
        if ca < cb {
            return true;
        }
        if ca > cb {
            return false;
        }
        i = i + 1;
    }
}

/// The path separator used throughout the engine.
pub open spec fn sep() -> char {
    '/'
}

/// What joining a parent path and a child name produces.
pub open spec fn join_view(parent: Seq<char>, name: Seq<char>) -> Seq<char> {
    parent + seq![sep()] + name
}

/// Joins a parent path and a child name with the path separator.
pub fn join(parent: &String, name: &String) -> (r: String)
    ensures
        r@ == join_view(parent@, name@),
{
    let mut r = parent.clone();
    r.append("/");
    r.append(name.as_str());
    proof {
        reveal_strlit("/");
        assert(r@ =~= join_view(parent@, name@));
    }
    r
}

/// Index of the last separator in a path, or -1 when it has none.
pub open spec fn last_sep(s: Seq<char>) -> int
    decreases s.len(),
{
    if s.len() == 0 {
        -1
    } else if s[s.len() - 1] == sep() {
        s.len() - 1
    } else {
        last_sep(s.drop_last())
    }
}

/// The last separator index lies within the path and marks a separator;
/// a path without separators has index -1.
pub proof fn lemma_last_sep_bounds(s: Seq<char>)
    ensures
        -1 <= last_sep(s) < s.len(),
        last_sep(s) >= 0 ==> s[last_sep(s)] == sep(),
        forall|j: int| last_sep(s) < j < s.len() ==> s[j] != sep(),
    decreases s.len(),
{
    if s.len() > 0 && s[s.len() - 1] != sep() {
        lemma_last_sep_bounds(s.drop_last());
        assert forall|j: int| last_sep(s) < j < s.len() implies s[j] != sep() by {
            if j < s.len() - 1 {
                assert(s.drop_last()[j] == s[j]);
            }
        }
    }
}

/// The parent of a path: everything before the last separator.
pub open spec fn parent_view(s: Seq<char>) -> Seq<char> {
    s.subrange(0, last_sep(s))
}

/// The base name of a path: everything after the last separator, or the
/// whole path when it has none.
pub open spec fn base_name_view(s: Seq<char>) -> Seq<char> {
    s.subrange(last_sep(s) + 1, s.len() as int)
}

/// Finds the index of the last separator, if any.
fn find_last_sep(path: &String) -> (r: Option<usize>)
    ensures
        match r {
            Some(i) => last_sep(path@) == i as int,
            None => last_sep(path@) == -1,
        },
{
    let s = path.as_str();
    let len = s.unicode_len();
    let mut i: usize = len;
    proof {
        assert(path@.subrange(0, len as int) =~= path@);
    }
    loop
        invariant
            i <= len,
            s@ == path@,
            len == path@.len(),
            last_sep(path@) == last_sep(path@.subrange(0, i as int)),
        decreases i,
    {
        if i == 0 {
            proof {
                assert(path@.subrange(0, 0).len() == 0);
            }
            return None;
        }
        let c = s.get_char(i - 1);
        proof {
            let pre = path@.subrange(0, i as int);
            assert(pre[i - 1] == path@[i - 1]);
            assert(pre.drop_last() =~= path@.subrange(0, i - 1));
        }
        if c == '/' {
            proof {
                let pre = path@.subrange(0, i as int);
                assert(pre[pre.len() - 1] == sep());
                assert(last_sep(pre) == i - 1);
            }
            return Some(i - 1);
        }
        i = i - 1;
    }
}

/// Splits a path into its parent and base name at the last separator.
/// Returns `None` for a parentless path (one without a separator).
pub fn split_path(path: &String) -> (r: Option<(String, String)>)
    ensures
        match r {
            Some(pair) => {
                &&& last_sep(path@) >= 0
                &&& pair.0@ == parent_view(path@)
                &&& pair.1@ == base_name_view(path@)
            },
            None => last_sep(path@) == -1,
        },
{
    let s = path.as_str();
    let len = s.unicode_len();
    match find_last_sep(path) {
        None => None,
        Some(i) => {
            proof {
                lemma_last_sep_bounds(path@);
            }
            let parent = s.substring_char(0, i).to_owned();
            let name = s.substring_char(i + 1, len).to_owned();
            Some((parent, name))
        },
    }
}

/// The base name of a path; the whole path when it has no separator.
pub fn base_name(path: &String) -> (r: String)
    ensures
        r@ == base_name_view(path@),
{
    let s = path.as_str();
    let len = s.unicode_len();
    match find_last_sep(path) {
        None => {
            proof {
                assert(path@.subrange(0, len as int) =~= path@);
            }
            path.clone()
        },
        Some(i) => {
            proof {
                lemma_last_sep_bounds(path@);
            }
            s.substring_char(i + 1, len).to_owned()
        },
    }
}

} // verus!
