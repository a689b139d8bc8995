//! The line scanner: splitting input text into lines, substring containment,
//! and the per-marker counting model.
//!
//! A marker is counted at most once per line: the scanner tests for presence
//! of the literal, not for the number of occurrences.  Every marker is tested
//! independently against the raw line, so overlapping literals each count.

use vstd::prelude::*;

use crate::markers::Marker;
use crate::markers::marker_literal;

verus! {

/// The pattern occurs in the line starting at position `i`.
pub open spec fn match_at(line: Seq<char>, pat: Seq<char>, i: int) -> bool {
    0 <= i && i + pat.len() <= line.len() && line.subrange(i, i + pat.len()) == pat
}

/// Case-sensitive substring containment, the scanner's presence test.
/// Opaque so that callers reason through `line_contains` and the counting
/// lemmas; reveal it where the quantifier itself is needed.
#[verifier::opaque]
pub open spec fn line_has(line: Seq<char>, pat: Seq<char>) -> bool {
    exists|i: int| match_at(line, pat, i)
}

/// Compares the pattern against the line at offset `at`.
fn matches_at(line: &Vec<char>, pat: &str, at: usize) -> (r: bool)
    requires
        at + pat@.len() <= line@.len(),
    ensures
        r == match_at(line@, pat@, at as int),
{
    let n: usize = pat.unicode_len();
    let llen: usize = line.len();
    let mut j: usize = 0;
    while j < n
        invariant
            n == pat@.len(),
            llen == line@.len(),
            at + n <= llen,
            0 <= j <= n,
            forall|k: int| 0 <= k < j ==> line@[at + k] == pat@[k],
        decreases n - j,
    {
        if line[at + j] != pat.get_char(j) {
            assert(!match_at(line@, pat@, at as int)) by {
                if line@.subrange(at as int, at + pat@.len()) == pat@ {
                    assert(line@.subrange(at as int, at + pat@.len())[j as int] == pat@[j as int]);
                }
            };
            return false;
        }
        j += 1;
    }
    assert(line@.subrange(at as int, at + pat@.len()) =~= pat@);
    true
}

/// Tests whether the line contains the pattern as a substring.
pub fn line_contains(line: &Vec<char>, pat: &str) -> (r: bool)
    ensures
        r == line_has(line@, pat@),
{
    let n: usize = pat.unicode_len();
    let len: usize = line.len();
    if n > len {
        assert(!line_has(line@, pat@)) by {
            reveal(line_has);
            assert(forall|i: int| #[trigger] match_at(line@, pat@, i) ==> i + pat@.len() <= line@.len());
        };
        return false;
    }
    if n == 0 {
        assert(line_has(line@, pat@)) by {
            reveal(line_has);
            assert(line@.subrange(0, 0) =~= pat@);
            assert(match_at(line@, pat@, 0));
        };
        return true;
    }
    let mut i: usize = 0;
    while i <= len - n
        invariant
            n == pat@.len(),
            len == line@.len(),
            1 <= n <= len,
            0 <= i <= len - n + 1,
            forall|k: int| 0 <= k < i ==> !match_at(line@, pat@, k),
        decreases len - n + 1 - i,
    {
        if matches_at(line, pat, i) {
            assert(line_has(line@, pat@)) by {
                reveal(line_has);
                assert(match_at(line@, pat@, i as int));
            };
            return true;
        }
        i += 1;
    }
    assert(!line_has(line@, pat@)) by {
        reveal(line_has);
        assert forall|k: int| !match_at(line@, pat@, k) by {
            if 0 <= k && k + pat@.len() <= line@.len() {
                assert(k < i);
            }
        }
    };
    false
}

/// Index of the first newline character in `s`, or `s.len()` if there is none.
pub open spec fn find_newline(s: Seq<char>) -> nat
    decreases s.len(),
{
    if s.len() == 0 {
        0
    } else if s[0] == '\n' {
        0
    } else {
        1 + find_newline(s.drop_first())
    }
}

/// `find_newline` points at the first newline: nothing before it is a
/// newline, and the position itself holds one unless the text has none.
pub proof fn lemma_find_newline(s: Seq<char>)
    ensures
        find_newline(s) <= s.len(),
        forall|k: int| 0 <= k < find_newline(s) ==> s[k] != '\n',
        find_newline(s) < s.len() ==> s[find_newline(s) as int] == '\n',
    decreases s.len(),
{
    if s.len() == 0 {
    } else if s[0] == '\n' {
    } else {
        lemma_find_newline(s.drop_first());
        assert forall|k: int| 0 <= k < find_newline(s) implies s[k] != '\n' by {
            if k > 0 {
                assert(s.drop_first()[k - 1] == s[k]);
            }
        }
        if find_newline(s) < s.len() {
            assert(s.drop_first()[find_newline(s) - 1] == s[find_newline(s) as int]);
        }
    }
}

/// A position with no newline before it and a newline on it (or the text's
/// end, if the text has no newline) is exactly what `find_newline` returns.
pub proof fn lemma_find_newline_at(s: Seq<char>, i: int)
    requires
        0 <= i <= s.len(),
        forall|k: int| 0 <= k < i ==> s[k] != '\n',
        i < s.len() ==> s[i] == '\n',
    ensures
        find_newline(s) == i,
{
    lemma_find_newline(s);
    let r = find_newline(s) as int;
    if r < i {
        assert(s[r] == '\n');
        assert(s[r] != '\n');
    } else if r > i {
        assert(s[i] != '\n');
    }
}

/// Removes one trailing carriage return, the residue of a `\r\n` line ending.
pub open spec fn strip_trailing_cr(line: Seq<char>) -> Seq<char> {
    if line.len() > 0 && line.last() == '\r' {
        line.drop_last()
    } else {
        line
    }
}

/// Splits a text into the lines the scanner walks: pieces separated by
/// newline characters, with the carriage return of a `\r\n` ending removed,
/// and with no empty final line after a trailing newline.
pub open spec fn lines_of(s: Seq<char>) -> Seq<Seq<char>>
    decreases s.len(),
{
    if s.len() == 0 {
        Seq::empty()
    } else {
        let i = find_newline(s) as int;
        if i >= s.len() {
            seq![s]
        } else {
            seq![strip_trailing_cr(s.take(i))] + lines_of(s.skip(i + 1))
        }
    }
}

/// The views of a vector of line buffers.
pub open spec fn line_views(lines: Seq<Vec<char>>) -> Seq<Seq<char>> {
    lines.map_values(|l: Vec<char>| l@)
}

/// The characters of a string slice, one slot per character.
pub fn chars_of(s: &str) -> (v: Vec<char>)
    ensures
        v@ == s@,
{
    let n: usize = s.unicode_len();
    let mut v: Vec<char> = Vec::new();
    let mut i: usize = 0;
    while i < n
        invariant
            n == s@.len(),
            0 <= i <= n,
            v@ == s@.take(i as int),
        decreases n - i,
    {
        v.push(s.get_char(i));
        assert(s@.take(i + 1) =~= s@.take(i as int).push(s@[i as int]));
        i += 1;
    }
    assert(s@.take(n as int) =~= s@);
    v
}

/// Copies `v[from..to]` into a fresh buffer.
fn copy_range(v: &Vec<char>, from: usize, to: usize) -> (r: Vec<char>)
    requires
        from <= to <= v@.len(),
    ensures
        r@ == v@.subrange(from as int, to as int),
{
    let mut r: Vec<char> = Vec::new();
    let mut i: usize = from;
    while i < to
        invariant
            from <= i <= to <= v@.len(),
            r@ == v@.subrange(from as int, i as int),
        decreases to - i,
    {
        r.push(v[i]);
        assert(v@.subrange(from as int, i + 1) =~= v@.subrange(from as int, i as int).push(v@[i as int]));
        i += 1;
    }
    r
}

/// Copies `v[from..to]` with a trailing carriage return removed, as one
/// newline-terminated line of the text.
fn copy_line(v: &Vec<char>, from: usize, to: usize) -> (line: Vec<char>)
    requires
        from <= to <= v@.len(),
    ensures
        line@ == strip_trailing_cr(v@.subrange(from as int, to as int)),
{
    let mut line = copy_range(v, from, to);
    if line.len() > 0 && line[line.len() - 1] == '\r' {
        line.pop();
    }
    line
}

/// At a newline with no earlier newline after `start`, the remaining text
/// splits into the piece before the newline and the lines after it.
proof fn lemma_split_step(s: Seq<char>, start: int, i: int)
    requires
        0 <= start <= i < s.len(),
        forall|k: int| start <= k < i ==> s[k] != '\n',
        s[i] == '\n',
    ensures
        lines_of(s.skip(start)) ==
            seq![strip_trailing_cr(s.subrange(start, i))] + lines_of(s.skip(i + 1)),
{
    let u = s.skip(start);
    assert forall|k: int| 0 <= k < i - start implies u[k] != '\n' by {
        assert(u[k] == s[start + k]);
    }
    assert(u[i - start] == s[i]);
    lemma_find_newline_at(u, i - start);
    assert(u.take(i - start) =~= s.subrange(start, i));
    assert(u.skip(i - start + 1) =~= s.skip(i + 1));
}

/// Text after `start` without any newline forms exactly one final line.
proof fn lemma_split_last(s: Seq<char>, start: int)
    requires
        0 <= start < s.len(),
        forall|k: int| start <= k < s.len() ==> s[k] != '\n',
    ensures
        lines_of(s.skip(start)) == seq![s.subrange(start, s.len() as int)],
{
    let u = s.skip(start);
    assert forall|k: int| 0 <= k < u.len() implies u[k] != '\n' by {
        assert(u[k] == s[start + k]);
    }
    lemma_find_newline_at(u, u.len() as int);
    assert(u =~= s.subrange(start, s.len() as int));
}

/// Splits the text into scanner lines, as `lines_of` describes.
pub fn split_lines(text: &Vec<char>) -> (lines: Vec<Vec<char>>)
    ensures
        line_views(lines@) == lines_of(text@),
{
    let n: usize = text.len();
    let mut lines: Vec<Vec<char>> = Vec::new();
    let mut start: usize = 0;
    let mut i: usize = 0;
    proof {
        assert(text@.skip(0) =~= text@);
        assert(line_views(lines@) =~= Seq::<Seq<char>>::empty());
    }
    while i < n
        invariant
            n == text@.len(),
            start <= i <= n,
            forall|k: int| start <= k < i ==> text@[k] != '\n',
            lines_of(text@) == line_views(lines@) + lines_of(text@.skip(start as int)),
        decreases n - i,
    {
        if text[i] == '\n' {
            let line = copy_line(text, start, i);
            proof {
                lemma_split_step(text@, start as int, i as int);
                assert(line_views(lines@.push(line)) =~= line_views(lines@).push(line@));
                assert(line_views(lines@.push(line)) + lines_of(text@.skip(i + 1)) =~=
                    line_views(lines@) +
                    (seq![strip_trailing_cr(text@.subrange(start as int, i as int))] +
                        lines_of(text@.skip(i + 1))));
            }
            lines.push(line);
            start = i + 1;
        }
        i += 1;
    }
    if start < n {
        let line = copy_range(text, start, n);
        proof {
            lemma_split_last(text@, start as int);
            assert(line_views(lines@.push(line)) =~= line_views(lines@).push(line@));
            assert(line_views(lines@.push(line)) =~=
                line_views(lines@) + seq![text@.subrange(start as int, n as int)]);
        }
        lines.push(line);
    } else {
        proof {
            assert(text@.skip(start as int) =~= Seq::<char>::empty());
            assert(line_views(lines@) + lines_of(text@.skip(start as int)) =~= line_views(lines@));
        }
    }
    lines
}

/// How many of the lines contain the pattern: at most one per line, however
/// many times the pattern occurs inside a line.
pub open spec fn count_matches(lines: Seq<Seq<char>>, pat: Seq<char>) -> nat
    decreases lines.len(),
{
    if lines.len() == 0 {
        0
    } else {
        count_matches(lines.drop_last(), pat) + (if line_has(lines.last(), pat) {
            1nat
        } else {
            0nat
        })
    }
}

/// How many lines of the input text contain the marker's literal.
pub open spec fn marker_count(input: Seq<char>, m: Marker) -> nat {
    count_matches(lines_of(input), marker_literal(m))
}

/// Appending one line raises a pattern's count by one exactly when the line
/// contains the pattern, and leaves it unchanged otherwise.
pub proof fn lemma_count_push(lines: Seq<Seq<char>>, line: Seq<char>, pat: Seq<char>)
    ensures
        count_matches(lines.push(line), pat) == count_matches(lines, pat) + (if line_has(
            line,
            pat,
        ) {
            1nat
        } else {
            0nat
        }),
{
    assert(lines.push(line).drop_last() =~= lines);
    assert(lines.push(line).last() == line);
}

/// One scanning step: taking one more line raises each pattern's count by
/// one exactly when that line contains the pattern; and a count over the
/// first `i` lines never exceeds `i`.
pub proof fn lemma_count_take_step(lines: Seq<Seq<char>>, i: int)
    requires
        0 <= i < lines.len(),
    ensures
        forall|p: Seq<char>| #[trigger]
            count_matches(lines.take(i + 1), p) == count_matches(lines.take(i), p) + (if line_has(
                lines[i],
                p,
            ) {
                1nat
            } else {
                0nat
            }),
        forall|p: Seq<char>| #[trigger] count_matches(lines.take(i), p) <= i,
{
    assert forall|p: Seq<char>| #[trigger]
        count_matches(lines.take(i + 1), p) == count_matches(lines.take(i), p) + (if line_has(
            lines[i],
            p,
        ) {
            1nat
        } else {
            0nat
        }) by {
        assert(lines.take(i + 1) =~= lines.take(i).push(lines[i]));
        lemma_count_push(lines.take(i), lines[i], p);
    }
    assert forall|p: Seq<char>| #[trigger] count_matches(lines.take(i), p) <= i by {
        lemma_count_le_len(lines.take(i), p);
    }
}

/// No pattern is counted more often than there are lines.
pub proof fn lemma_count_le_len(lines: Seq<Seq<char>>, pat: Seq<char>)
    ensures
        count_matches(lines, pat) <= lines.len(),
    decreases lines.len(),
{
    if lines.len() > 0 {
        lemma_count_le_len(lines.drop_last(), pat);
    }
}

/// A line in which a marker's literal is present — once or many times over —
/// raises that marker's count by exactly one: the scanner counts presence,
/// not occurrences.
pub proof fn lemma_marker_counted_once_per_line(
    lines: Seq<Seq<char>>,
    line: Seq<char>,
    m: Marker,
)
    requires
        line_has(line, marker_literal(m)),
    ensures
        count_matches(lines.push(line), marker_literal(m)) == count_matches(
            lines,
            marker_literal(m),
        ) + 1,
{
    lemma_count_push(lines, line, marker_literal(m));
}

/// A line in which no marker's literal is present leaves every marker's
/// count unchanged.
pub proof fn lemma_unmatched_line_counts_nothing(lines: Seq<Seq<char>>, line: Seq<char>)
    requires
        forall|m: Marker| !line_has(line, marker_literal(m)),
    ensures
        forall|m: Marker| #[trigger]
            count_matches(lines.push(line), marker_literal(m)) == count_matches(
                lines,
                marker_literal(m),
            ),
{
    assert forall|m: Marker| #[trigger]
        count_matches(lines.push(line), marker_literal(m)) == count_matches(
            lines,
            marker_literal(m),
        ) by {
        lemma_count_push(lines, line, marker_literal(m));
    }
}

/// Markers are tested independently against the raw line: a line that holds
/// both the section-header-begin literal and the key-name-begin literal
/// raises both counts, overlap notwithstanding.
pub proof fn lemma_overlapping_markers_independent(lines: Seq<Seq<char>>, line: Seq<char>)
    requires
        line_has(line, marker_literal(Marker::SectionHeaderBegin)),
        line_has(line, marker_literal(Marker::KeyNameBegin)),
    ensures
        count_matches(lines.push(line), marker_literal(Marker::SectionHeaderBegin))
            == count_matches(lines, marker_literal(Marker::SectionHeaderBegin)) + 1,
        count_matches(lines.push(line), marker_literal(Marker::KeyNameBegin)) == count_matches(
            lines,
            marker_literal(Marker::KeyNameBegin),
        ) + 1,
{
    lemma_marker_counted_once_per_line(lines, line, Marker::SectionHeaderBegin);
    lemma_marker_counted_once_per_line(lines, line, Marker::KeyNameBegin);
}

} // verus!
