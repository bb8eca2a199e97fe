//! Decisions about the desktop shortcut and the bundled window icon of the
//! portable launcher.

use vstd::prelude::*;

use crate::paths::{path_eq, same_path};
use crate::text::chars_of;

verus! {

/// `c` with an ASCII upper-case letter made lower-case.
pub open spec fn ascii_lower(c: char) -> char {
    if 'A' <= c && c <= 'Z' {
        ((c as int) + 32) as char
    } else {
        c
    }
}

/// Equality up to ASCII case, as `str::eq_ignore_ascii_case` compares.
pub open spec fn eq_ignore_ascii_case_spec(a: Seq<char>, b: Seq<char>) -> bool {
    a.len() == b.len() && forall|i: int| 0 <= i < a.len() ==> ascii_lower(#[trigger] a[i])
        == ascii_lower(b[i])
}

fn lower(c: char) -> (r: char)
    ensures
        r == ascii_lower(c),
{
    if 'A' <= c && c <= 'Z' {
        ((c as u8) + 32) as char
    } else {
        c
    }
}

/// Whether `a` and `b` are equal up to ASCII case.
pub fn eq_ignore_ascii_case(a: &str, b: &str) -> (r: bool)
    ensures
        r == eq_ignore_ascii_case_spec(a@, b@),
{
    let x = chars_of(a);
    let y = chars_of(b);
    if x.len() != y.len() {
        return false;
    }
    let mut i: usize = 0;
    while i < x.len()
        invariant
            i <= x.len(),
            x.len() == y.len(),
            x@ == a@,
            y@ == b@,
            forall|j: int| 0 <= j < i ==> ascii_lower(#[trigger] x@[j]) == ascii_lower(y@[j]),
        decreases x.len() - i,
    {
        if lower(x[i]) != lower(y[i]) {
            assert(ascii_lower(x@[i as int]) != ascii_lower(y@[i as int]));
            return false;
        }
        i = i + 1;
    }
    true
}

/// Whether two paths point at the same file: where both could be resolved
/// to canonical paths (`canonical_a`, `canonical_b`), whether those are the
/// same path; otherwise whether the paths as written are equal up to ASCII
/// case (as for an old shortcut whose target folder was deleted).
pub fn same_file(
    a: &str,
    b: &str,
    canonical_a: Option<&str>,
    canonical_b: Option<&str>,
) -> (r: bool)
    ensures
        r == match (canonical_a, canonical_b) {
            (Some(ca), Some(cb)) => path_eq(ca@, cb@),
            _ => eq_ignore_ascii_case_spec(a@, b@),
        },
{
    match (canonical_a, canonical_b) {
        (Some(ca), Some(cb)) => same_path(ca, cb),
        _ => eq_ignore_ascii_case(a, b),
    }
}

/// Whether to write the desktop shortcut: an existing shortcut is left as
/// it is when it already points at this launcher, and rewritten otherwise
/// (also when its target cannot be read); a missing one is created only
/// when `create_if_missing`.
pub fn shortcut_needs_write(
    shortcut_exists: bool,
    points_at_this_launcher: bool,
    create_if_missing: bool,
) -> (r: bool)
    ensures
        r == if shortcut_exists {
            !points_at_this_launcher
        } else {
            create_if_missing
        },
{
    if shortcut_exists {
        !points_at_this_launcher
    } else {
        create_if_missing
    }
}

/// Whether the bundled icon must be written to its temporary file: the
/// file is missing (`None`) or its length differs from the icon's.
pub fn icon_needs_write(existing_len: Option<u64>, icon_len: u64) -> (r: bool)
    ensures
        r == match existing_len {
            Some(n) => n != icon_len,
            None => true,
        },
{
    match existing_len {
        Some(n) => n != icon_len,
        None => true,
    }
}

} // verus!
