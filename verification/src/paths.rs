//! File-system paths, handled as text through `std::path::Path`.

use vstd::prelude::*;

verus! {

/// What `Path::parent` gives for the path `p`.
pub uninterp spec fn path_parent(p: Seq<char>) -> Option<Seq<char>>;

/// What `Path::file_name` gives for the path `p`.
pub uninterp spec fn path_file_name(p: Seq<char>) -> Option<Seq<char>>;

/// What `Path::extension` gives for the path `p`.
pub uninterp spec fn path_extension(p: Seq<char>) -> Option<Seq<char>>;

/// What `Path::join` gives for the paths `base` and `tail`.
pub uninterp spec fn path_join(base: Seq<char>, tail: Seq<char>) -> Seq<char>;

/// Whether `Path`'s `==` takes `a` and `b` for the same path (it compares
/// their components).
pub uninterp spec fn path_eq(a: Seq<char>, b: Seq<char>) -> bool;

/// A single ordinary file name: not empty, no separator (`/` or `\\`), no
/// drive colon, and neither `.` nor `..`.
pub open spec fn is_plain_name(t: Seq<char>) -> bool {
    &&& t.len() > 0
    &&& forall|i: int| 0 <= i < t.len() ==> #[trigger] t[i] != '/' && t[i] != '\\' && t[i] != ':'
    &&& t != seq!['.']
    &&& t != seq!['.', '.']
}

/// A path separator on some platform.
pub open spec fn is_separator(c: char) -> bool {
    c == '/' || c == '\\'
}

/// A directory path that `Path::parent` gives back as written once a name is
/// joined to it: not empty, not ending in a separator, a `.` or a colon, and
/// not starting with two separators (as a network share does).
pub open spec fn is_plain_dir(b: Seq<char>) -> bool {
    &&& b.len() > 0
    &&& !is_separator(b.last())
    &&& b.last() != '.'
    &&& b.last() != ':'
    &&& !(b.len() >= 2 && is_separator(b[0]) && is_separator(b[1]))
}

/// Calls `Path::parent`. Claimed: the result is `path_parent(p)`.
#[verifier::external_body]
pub fn parent(p: &str) -> (r: Option<String>)
    ensures
        match r {
            Some(q) => path_parent(p@) == Some(q@),
            None => path_parent(p@) is None,
        },
{
    match std::path::Path::new(p).parent() {
        Some(q) => Some(q.to_string_lossy().into_owned()),
        None => None,
    }
}

/// Calls `Path::file_name`. Claimed: the result is `path_file_name(p)`.
#[verifier::external_body]
pub fn file_name(p: &str) -> (r: Option<String>)
    ensures
        match r {
            Some(q) => path_file_name(p@) == Some(q@),
            None => path_file_name(p@) is None,
        },
{
    match std::path::Path::new(p).file_name() {
        Some(q) => Some(q.to_string_lossy().into_owned()),
        None => None,
    }
}

/// Calls `Path::extension`. Claimed: the result is `path_extension(p)`.
#[verifier::external_body]
pub fn extension(p: &str) -> (r: Option<String>)
    ensures
        match r {
            Some(q) => path_extension(p@) == Some(q@),
            None => path_extension(p@) is None,
        },
{
    match std::path::Path::new(p).extension() {
        Some(q) => Some(q.to_string_lossy().into_owned()),
        None => None,
    }
}

/// Calls `Path::join`. Claimed: the result is `path_join(base, tail)`; a
/// relative plain `tail` appended to a plain `base` gives a plain directory
/// path ending as `tail` does; an ordinary file name joined on is the
/// result's file name, and joined to a plain directory, that directory is
/// its parent. Whatever `base` is, an ordinary file name joined to it ends
/// up as one last component after `base`'s own, so the result's parent is
/// the same for every such name.
#[verifier::external_body]
pub fn join(base: &str, tail: &str) -> (r: String)
    ensures
        r@ == path_join(base@, tail@),
        is_plain_name(tail@) ==> path_parent(r@) is Some && forall|t: Seq<char>|
            is_plain_name(t) ==> path_parent(#[trigger] path_join(base@, t)) == path_parent(r@),
        tail@.len() > 0 && !is_separator(tail@[0]) && is_plain_dir(base@) && is_plain_dir(tail@)
            ==> is_plain_dir(r@) && r@.last() == tail@.last(),
        is_plain_name(tail@) ==> path_file_name(r@) == Some(tail@),
        is_plain_name(tail@) && is_plain_dir(base@) ==> path_parent(r@) == Some(base@),
{
    std::path::Path::new(base).join(tail).to_string_lossy().into_owned()
}

/// Calls `==` on two `Path`s. Claimed: the result is `path_eq(a, b)`; equal
/// texts are the same path, and the comparison is symmetric (`Path: Eq`).
#[verifier::external_body]
pub fn same_path(a: &str, b: &str) -> (r: bool)
    ensures
        r == path_eq(a@, b@),
        r == path_eq(b@, a@),
        a@ == b@ ==> r,
{
    std::path::Path::new(a) == std::path::Path::new(b)
}

} // verus!
