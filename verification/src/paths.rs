//! Textual path arithmetic.
//!
//! Paths are plain strings throughout the library; this module gives the one
//! joining operation everything else is built from, together with its
//! mathematical model `path_concat`.

use vstd::prelude::*;
use vstd::string::*;

verus! {

/// The model of path joining: an empty component leaves the base unchanged,
/// an absolute component (leading `/`) replaces the base, and otherwise the
/// two are joined with exactly one `/` separator.
pub open spec fn path_concat(base: Seq<char>, rel: Seq<char>) -> Seq<char> {
    if rel.len() == 0 {
        base
    } else if rel[0] == '/' {
        rel
    } else if base.len() == 0 {
        rel
    } else if base[base.len() - 1] == '/' {
        base + rel
    } else {
        base + seq!['/'] + rel
    }
}

/// Holds when `p` names a strict descendant of the directory `root`:
/// `p` is `root`, then a `/`, then at least one further character.
pub open spec fn strict_under(p: Seq<char>, root: Seq<char>) -> bool {
    &&& p.len() > root.len() + 1
    &&& p.subrange(0, root.len() as int) == root
    &&& p[root.len() as int] == '/'
}

/// Joining the empty component is the identity.
pub proof fn lemma_concat_empty(base: Seq<char>)
    ensures
        path_concat(base, Seq::<char>::empty()) == base,
{
}

/// Joins `rel` onto `base`, exactly as `path_concat` describes.
pub fn join_paths(base: &str, rel: &str) -> (r: String)
    ensures
        r@ == path_concat(base@, rel@),
{
    let rl = rel.unicode_len();
    if rl == 0 {
        return base.to_owned();
    }
    if rel.get_char(0) == '/' {
        return rel.to_owned();
    }
    let bl = base.unicode_len();
    if bl == 0 {
        return rel.to_owned();
    }
    if base.get_char(bl - 1) == '/' {
        let mut s = base.to_owned();
        s.append(rel);
        s
    } else {
        let mut s = base.to_owned();
        s.append("/");
        s.append(rel);
        proof {
            reveal_strlit("/");
            assert(s@ =~= base@ + seq!['/'] + rel@);
        }
        s
    }
}

} // verus!
