//! Read-only questions to the filesystem, handed in by the caller.
//!
//! A file probe answers whether a path names a regular file; a listing
//! probe gives the names of a directory's immediate subdirectories (none
//! when the directory cannot be read). Probing is read-only, so a stable
//! probe answers the same path the same way every time it is asked.
use vstd::prelude::*;
use crate::text::strs;

verus! {

/// `f` can be asked about any path and gives one answer per path.
pub open spec fn stable_probe<F: Fn(String) -> bool>(f: F) -> bool {
    &&& forall|s: String| #[trigger] f.requires((s,))
    &&& forall|s1: String, s2: String, b1: bool, b2: bool|
        s1@ == s2@ && #[trigger] f.ensures((s1,), b1) && #[trigger] f.ensures((s2,), b2) ==> b1
            == b2
}

/// The answer of `f` for path `p`.
pub open spec fn found<F: Fn(String) -> bool>(f: F, p: Seq<char>) -> bool {
    exists|s: String| s@ == p && #[trigger] f.ensures((s,), true)
}

/// `l` can be asked about any directory and gives one listing per directory.
pub open spec fn stable_listing<L: Fn(String) -> Vec<String>>(l: L) -> bool {
    &&& forall|s: String| #[trigger] l.requires((s,))
    &&& forall|s1: String, s2: String, r1: Vec<String>, r2: Vec<String>|
        s1@ == s2@ && #[trigger] l.ensures((s1,), r1) && #[trigger] l.ensures((s2,), r2) ==> strs(
            r1@,
        ) == strs(r2@)
}

/// Some answer that `l` can give for directory `p`.
pub open spec fn is_listing_of<L: Fn(String) -> Vec<String>>(
    l: L,
    p: Seq<char>,
    r: Vec<String>,
) -> bool {
    exists|s: String| s@ == p && #[trigger] l.ensures((s,), r)
}

/// The subdirectory names that `l` gives for directory `p`.
pub open spec fn listed<L: Fn(String) -> Vec<String>>(l: L, p: Seq<char>) -> Seq<Seq<char>> {
    strs((choose|r: Vec<String>| is_listing_of(l, p, r))@)
}

/// Asks `is_file` about `p`.
pub fn probe_file<F: Fn(String) -> bool>(is_file: &F, p: &String) -> (r: bool)
    requires
        stable_probe(*is_file),
    ensures
        r == found(*is_file, p@),
{
    let q = p.clone();
    let r = is_file(q);
    proof {
        if !r && found(*is_file, p@) {
            let s = choose|s: String| s@ == p@ && #[trigger] is_file.ensures((s,), true);
            assert(is_file.ensures((q,), false));
        }
    }
    r
}

/// Asks `list_dirs` about `p`.
pub fn probe_listing<L: Fn(String) -> Vec<String>>(list_dirs: &L, p: &String) -> (r: Vec<String>)
    requires
        stable_listing(*list_dirs),
    ensures
        strs(r@) == listed(*list_dirs, p@),
{
    let q = p.clone();
    let r = list_dirs(q);
    proof {
        assert(is_listing_of(*list_dirs, p@, r));
        let c = choose|c: Vec<String>| is_listing_of(*list_dirs, p@, c);
        let s = choose|s: String| s@ == p@ && #[trigger] list_dirs.ensures((s,), c);
        assert(list_dirs.ensures((q,), r));
    }
    r
}

} // verus!
