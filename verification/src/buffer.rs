//! The save comparison: which buffer lines differ from what is already on
//! disk, and how many.
//!
//! The save contract works on plain line sequences: the caller reads the
//! existing file's lines (a missing or unreadable file counts as no lines),
//! asks [`count_changed_lines`] how many positions differ — lines are
//! compared with trailing whitespace stripped from both sides — and writes
//! the buffer out only when the count is nonzero, reporting that count.
//! Saving content that matches the file therefore reports zero changed
//! lines and performs no write.

use vstd::prelude::*;

use crate::text::{
    chars_to_string, copy_range, lines_view, str_to_chars, strs_view, trim_end_ws,
    trimmed_len,
};

verus! {

/// The first index at or after `from` holding a line feed, or the text
/// length when there is none.
pub open spec fn first_nl(s: Seq<char>, from: int) -> int
    decreases s.len() - from,
    when from <= s.len()
{
    if from >= s.len() {
        s.len() as int
    } else if s[from] == '\n' {
        from
    } else {
        first_nl(s, from + 1)
    }
}

proof fn lemma_first_nl_bounds(s: Seq<char>, from: int)
    requires
        0 <= from <= s.len(),
    ensures
        from <= first_nl(s, from) <= s.len(),
    decreases s.len() - from,
{
    if from < s.len() && s[from] != '\n' {
        lemma_first_nl_bounds(s, from + 1);
    }
}

/// A segment with one carriage return stripped from its end, as happens
/// to a segment that sat before a line feed.
pub open spec fn strip_cr(t: Seq<char>) -> Seq<char> {
    if t.len() > 0 && t.last() == '\r' {
        t.drop_last()
    } else {
        t
    }
}

/// The lines of `s` from position `from` on: segments split at each line
/// feed, a carriage return directly before a line feed stripped, a final
/// line terminator optional, and a final segment without one kept whole.
pub open spec fn spec_split_from(s: Seq<char>, from: int) -> Seq<Seq<char>>
    decreases s.len() - from,
    when 0 <= from <= s.len()
    via split_from_decreases
{
    if from >= s.len() {
        Seq::empty()
    } else {
        let i = first_nl(s, from);
        if i >= s.len() {
            seq![s.subrange(from, s.len() as int)]
        } else {
            seq![strip_cr(s.subrange(from, i))] + spec_split_from(s, i + 1)
        }
    }
}

#[via_fn]
proof fn split_from_decreases(s: Seq<char>, from: int) {
    lemma_first_nl_bounds(s, from);
}

/// The load contract's split: the text's lines, one buffer line per
/// terminated (or final unterminated) text line.
pub open spec fn spec_split_lines(s: Seq<char>) -> Seq<Seq<char>> {
    spec_split_from(s, 0)
}

/// Split loaded text into lines: segments end at each line feed (a
/// carriage return directly before the line feed is stripped), the final
/// terminator is optional, and empty text yields no lines at all.
pub fn split_lines(content: &str) -> (r: Vec<String>)
    ensures
        strs_view(r@) == spec_split_lines(content@),
{
    let chars = str_to_chars(content);
    let ghost s = content@;
    let n = chars.len();
    let mut r: Vec<String> = Vec::new();
    let mut start: usize = 0;
    while start < n
        invariant
            start <= n,
            n == s.len(),
            chars@ == s,
            spec_split_lines(s) == strs_view(r@) + spec_split_from(s, start as int),
        decreases n - start,
    {
        let ghost r0 = strs_view(r@);
        let mut i = start;
        while i < n && chars[i] != '\n'
            invariant
                start <= i <= n,
                n == s.len(),
                chars@ == s,
                first_nl(s, start as int) == first_nl(s, i as int),
            decreases n - i,
        {
            i += 1;
        }
        proof {
            assert(i == first_nl(s, start as int));
        }
        let mut seg = copy_range(&chars, start, i);
        if i < n {
            if seg.len() > 0 && seg[seg.len() - 1] == '\r' {
                let _popped = seg.pop();
            }
            proof {
                assert(seg@ == strip_cr(s.subrange(start as int, i as int)));
            }
            r.push(chars_to_string(&seg));
            start = i + 1;
        } else {
            proof {
                assert(seg@ == s.subrange(start as int, s.len() as int));
            }
            r.push(chars_to_string(&seg));
            start = n;
        }
        proof {
            assert(strs_view(r@) =~= r0.push(seg@));
            assert(spec_split_lines(s) =~= strs_view(r@) + spec_split_from(s, start as int));
        }
    }
    proof {
        assert(spec_split_from(s, start as int) =~= Seq::<Seq<char>>::empty());
        assert(spec_split_lines(s) =~= strs_view(r@));
    }
    r
}

/// Whether position `i` counts as changed: both sides must hold a line
/// there and the two lines must agree after trailing whitespace is
/// stripped; a position past either end is a change.
pub open spec fn changed_at(a: Seq<Seq<char>>, b: Seq<Seq<char>>, i: int) -> bool {
    if i < a.len() && i < b.len() {
        trim_end_ws(a[i]) != trim_end_ws(b[i])
    } else {
        true
    }
}

/// How many of the first `n` positions count as changed.
pub open spec fn count_changed_upto(a: Seq<Seq<char>>, b: Seq<Seq<char>>, n: int) -> int
    decreases n,
{
    if n <= 0 {
        0
    } else {
        count_changed_upto(a, b, n - 1) + if changed_at(a, b, n - 1) {
            1int
        } else {
            0int
        }
    }
}

/// The longer of the two line counts.
pub open spec fn spec_max_len(a: Seq<Seq<char>>, b: Seq<Seq<char>>) -> int {
    if a.len() >= b.len() {
        a.len() as int
    } else {
        b.len() as int
    }
}

/// How many line positions differ between the two sequences, comparing up
/// to the longer length with trailing whitespace ignored on both sides.
pub open spec fn spec_changed_lines(a: Seq<Seq<char>>, b: Seq<Seq<char>>) -> int {
    count_changed_upto(a, b, spec_max_len(a, b))
}

/// Whether two lines agree once trailing whitespace is stripped.
fn trimmed_line_eq(x: &Vec<char>, y: &Vec<char>) -> (r: bool)
    ensures
        r == (trim_end_ws(x@) == trim_end_ws(y@)),
{
    let jx = trimmed_len(x, x.len());
    let jy = trimmed_len(y, y.len());
    proof {
        assert(x@.take(x@.len() as int) =~= x@);
        assert(y@.take(y@.len() as int) =~= y@);
    }
    if jx != jy {
        proof {
            assert(trim_end_ws(x@).len() == jx);
            assert(trim_end_ws(y@).len() == jy);
        }
        return false;
    }
    let mut i: usize = 0;
    while i < jx
        invariant
            i <= jx,
            jx == jy,
            jx <= x@.len(),
            jy <= y@.len(),
            trim_end_ws(x@) == x@.take(jx as int),
            trim_end_ws(y@) == y@.take(jy as int),
            forall|t: int| 0 <= t < i ==> x@[t] == y@[t],
        decreases jx - i,
    {
        if x[i] != y[i] {
            proof {
                assert(trim_end_ws(x@)[i as int] != trim_end_ws(y@)[i as int]);
            }
            return false;
        }
        i += 1;
    }
    proof {
        assert(x@.take(jx as int) =~= y@.take(jy as int));
    }
    true
}

/// Count the line positions at which the buffer differs from the existing
/// file content, with trailing whitespace ignored on both sides of each
/// comparison; positions past the shorter sequence all count.
pub fn count_changed_lines(new_lines: &Vec<Vec<char>>, existing: &Vec<Vec<char>>) -> (n: usize)
    ensures
        n == spec_changed_lines(lines_view(new_lines@), lines_view(existing@)),
{
    let ghost a = lines_view(new_lines@);
    let ghost b = lines_view(existing@);
    let a_len = new_lines.len();
    let b_len = existing.len();
    let m = if a_len >= b_len {
        a_len
    } else {
        b_len
    };
    let mut count: usize = 0;
    let mut i: usize = 0;
    while i < m
        invariant
            i <= m,
            count <= i,
            a == lines_view(new_lines@),
            b == lines_view(existing@),
            a_len == a.len(),
            b_len == b.len(),
            m == spec_max_len(a, b),
            count == count_changed_upto(a, b, i as int),
        decreases m - i,
    {
        let differs: bool = if i < a_len && i < b_len {
            !trimmed_line_eq(&new_lines[i], &existing[i])
        } else {
            true
        };
        if differs {
            count += 1;
        }
        i += 1;
    }
    count
}

/// Saving an unchanged buffer reports zero changed lines: a line sequence
/// never differs from itself, so the comparison that gates the write
/// counts nothing and the save performs no write.
pub proof fn lemma_unchanged_save_zero(a: Seq<Seq<char>>)
    ensures
        spec_changed_lines(a, a) == 0,
{
    lemma_count_self_zero(a, a.len() as int);
}

proof fn lemma_count_self_zero(a: Seq<Seq<char>>, n: int)
    requires
        n <= a.len(),
    ensures
        count_changed_upto(a, a, n) == 0,
    decreases n,
{
    if n > 0 {
        lemma_count_self_zero(a, n - 1);
    }
}

} // verus!
