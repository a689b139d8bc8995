//! Path name helpers for the logging shell.

use vstd::prelude::*;

verus! {

/// Index of the last occurrence of `c` in `s`, or -1 if there is none.
pub open spec fn find_last(s: Seq<char>, c: char) -> int
    decreases s.len(),
{
    if s.len() == 0 {
        -1
    } else if s.last() == c {
        s.len() - 1
    } else {
        find_last(s.drop_last(), c)
    }
}

/// The suffix of `s` after the last occurrence of the separator, or all of
/// `s` when the separator does not occur.
pub open spec fn basename_of(s: Seq<char>, sep: char) -> Seq<char> {
    if find_last(s, sep) < 0 {
        s
    } else {
        s.skip(find_last(s, sep) + 1)
    }
}

/// `find_last` points at the last occurrence: nothing after it matches, and
/// the position itself matches unless there is no occurrence at all.
proof fn lemma_find_last(s: Seq<char>, c: char)
    ensures
        -1 <= find_last(s, c) < s.len(),
        forall|k: int| find_last(s, c) < k < s.len() ==> s[k] != c,
        find_last(s, c) >= 0 ==> s[find_last(s, c)] == c,
    decreases s.len(),
{
    if s.len() == 0 {
    } else if s.last() == c {
    } else {
        lemma_find_last(s.drop_last(), c);
        assert forall|k: int| find_last(s, c) < k < s.len() implies s[k] != c by {
            if k < s.len() - 1 {
                assert(s.drop_last()[k] == s[k]);
            }
        }
        if find_last(s, c) >= 0 {
            assert(s.drop_last()[find_last(s, c)] == s[find_last(s, c)]);
        }
    }
}

/// A position that matches with nothing matching after it — or no matching
/// position at all — is exactly what `find_last` returns.
proof fn lemma_find_last_at(s: Seq<char>, c: char, i: int)
    requires
        -1 <= i < s.len(),
        i >= 0 ==> s[i] == c,
        forall|k: int| i < k < s.len() ==> s[k] != c,
    ensures
        find_last(s, c) == i,
{
    lemma_find_last(s, c);
    let r = find_last(s, c);
    if r < i {
        assert(s[i] != c);
    } else if r > i {
        assert(s[r] != c);
    }
}

/// The separator this platform puts between path components.
/// Relies on std::path::MAIN_SEPARATOR; which character that is depends on
/// the build target, so nothing is promised of the result.
#[verifier::external_body]
fn path_separator() -> char {
    std::path::MAIN_SEPARATOR
}

/// The part of `path` after the last occurrence of the separator `sep`, or
/// all of `path` when the separator does not occur in it.
pub fn basename_from(path: &str, sep: char) -> (r: &str)
    ensures
        r@ == basename_of(path@, sep),
{
    let n: usize = path.unicode_len();
    let mut i: usize = n;
    while i > 0
        invariant
            n == path@.len(),
            0 <= i <= n,
            forall|k: int| i <= k < n ==> path@[k] != sep,
        decreases i,
    {
        if path.get_char(i - 1) == sep {
            proof {
                lemma_find_last_at(path@, sep, i - 1);
                assert(path@.skip(i as int) =~= path@.subrange(i as int, n as int));
            }
            return path.substring_char(i, n);
        }
        i -= 1;
    }
    proof {
        lemma_find_last_at(path@, sep, -1);
    }
    path
}

/// The file name part of `path`: everything after the last path separator
/// of this platform.  Which character separates components depends on the
/// build target, so the contract promises the suffix for some separator.
pub fn basename(path: &str) -> (r: &str)
    ensures
        exists|sep: char| r@ == basename_of(path@, sep),
{
    let sep = path_separator();
    let r = basename_from(path, sep);
    proof {
        assert(r@ == basename_of(path@, sep));
    }
    r
}

} // verus!
