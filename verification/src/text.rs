//! Characters, lines, and the small conversions the editor needs.
//!
//! A buffer line is a `Vec<char>` with no trailing terminator; columns are
//! character offsets. Whitespace detection is deliberately ASCII-only (the
//! word scans and the save comparison treat only the ASCII whitespace
//! characters as blank), matching the byte-oriented column arithmetic of the
//! editor.

use vstd::prelude::*;

verus! {

/// The mathematical content of a sequence of lines: each line as its
/// character sequence.
pub open spec fn lines_view(b: Seq<Vec<char>>) -> Seq<Seq<char>> {
    Seq::new(b.len(), |i: int| b[i]@)
}

/// The mathematical content of a sequence of `String`s.
pub open spec fn strs_view(b: Seq<String>) -> Seq<Seq<char>> {
    Seq::new(b.len(), |i: int| b[i]@)
}

/// The characters the editor treats as whitespace: ASCII only.
pub open spec fn is_ws(c: char) -> bool {
    c == ' ' || c == '\t' || c == '\n' || c == '\x0c' || c == '\r'
}

/// Runtime test for [`is_ws`].
pub fn is_whitespace(c: char) -> (r: bool)
    ensures
        r == is_ws(c),
{
    c == ' ' || c == '\t' || c == '\n' || c == '\x0c' || c == '\r'
}

/// The characters of `s`, one per sequence element.
pub fn str_to_chars(s: &str) -> (r: Vec<char>)
    ensures
        r@ == s@,
{
    let n = s.unicode_len();
    let mut r: Vec<char> = Vec::new();
    let mut i: usize = 0;
    while i < n
        invariant
            i <= n,
            n == s@.len(),
            r@ == s@.subrange(0, i as int),
        decreases n - i,
    {
        let c = s.get_char(i);
        r.push(c);
        proof {
            assert(s@.subrange(0, i + 1 as int) =~= s@.subrange(0, i as int).push(c));
        }
        i += 1;
    }
    proof {
        assert(r@ =~= s@);
    }
    r
}

/// Relies on `String::push`: appends exactly the given character.
#[verifier::external_body]
fn push_char(s: &mut String, c: char)
    ensures
        final(s)@ == old(s)@.push(c),
{
    s.push(c);
}

/// A `String` holding exactly the characters of `v`.
pub fn chars_to_string(v: &Vec<char>) -> (r: String)
    ensures
        r@ == v@,
{
    let mut r = String::new();
    let mut i: usize = 0;
    while i < v.len()
        invariant
            i <= v.len(),
            r@ == v@.subrange(0, i as int),
        decreases v.len() - i,
    {
        push_char(&mut r, v[i]);
        proof {
            assert(v@.subrange(0, i + 1 as int) =~= v@.subrange(0, i as int).push(v@[i as int]));
        }
        i += 1;
    }
    proof {
        assert(r@ =~= v@);
    }
    r
}

/// A copy of one line.
pub fn clone_line(v: &Vec<char>) -> (r: Vec<char>)
    ensures
        r@ == v@,
{
    let mut r: Vec<char> = Vec::new();
    let mut i: usize = 0;
    while i < v.len()
        invariant
            i <= v.len(),
            r@ == v@.subrange(0, i as int),
        decreases v.len() - i,
    {
        r.push(v[i]);
        proof {
            assert(v@.subrange(0, i + 1 as int) =~= v@.subrange(0, i as int).push(v@[i as int]));
        }
        i += 1;
    }
    proof {
        assert(r@ =~= v@);
    }
    r
}

/// A copy of a whole line sequence.
pub fn clone_lines(b: &Vec<Vec<char>>) -> (r: Vec<Vec<char>>)
    ensures
        lines_view(r@) == lines_view(b@),
{
    let mut r: Vec<Vec<char>> = Vec::new();
    let mut i: usize = 0;
    while i < b.len()
        invariant
            i <= b.len(),
            r@.len() == i,
            forall|j: int| 0 <= j < i ==> #[trigger] r@[j]@ == b@[j]@,
        decreases b.len() - i,
    {
        let line = clone_line(&b[i]);
        r.push(line);
        i += 1;
    }
    proof {
        assert(lines_view(r@) =~= lines_view(b@));
    }
    r
}

/// Each `String` as a line of characters.
pub fn strs_to_lines(b: &Vec<String>) -> (r: Vec<Vec<char>>)
    ensures
        lines_view(r@) == strs_view(b@),
{
    let mut r: Vec<Vec<char>> = Vec::new();
    let mut i: usize = 0;
    while i < b.len()
        invariant
            i <= b.len(),
            r@.len() == i,
            forall|j: int| 0 <= j < i ==> #[trigger] r@[j]@ == b@[j]@,
        decreases b.len() - i,
    {
        let line = str_to_chars(b[i].as_str());
        r.push(line);
        i += 1;
    }
    proof {
        assert(lines_view(r@) =~= strs_view(b@));
    }
    r
}

/// Whether two lines hold the same characters.
pub fn line_eq(a: &Vec<char>, b: &Vec<char>) -> (r: bool)
    ensures
        r == (a@ == b@),
{
    if a.len() != b.len() {
        return false;
    }
    let mut i: usize = 0;
    while i < a.len()
        invariant
            i <= a.len(),
            a.len() == b.len(),
            forall|j: int| 0 <= j < i ==> a@[j] == b@[j],
        decreases a.len() - i,
    {
        if a[i] != b[i] {
            return false;
        }
        i += 1;
    }
    proof {
        assert(a@ =~= b@);
    }
    true
}

/// Whether two line sequences hold the same lines.
pub fn lines_eq(a: &Vec<Vec<char>>, b: &Vec<Vec<char>>) -> (r: bool)
    ensures
        r == (lines_view(a@) == lines_view(b@)),
{
    if a.len() != b.len() {
        proof {
            assert(lines_view(a@).len() == a@.len());
            assert(lines_view(b@).len() == b@.len());
        }
        return false;
    }
    let mut i: usize = 0;
    while i < a.len()
        invariant
            i <= a.len(),
            a.len() == b.len(),
            forall|j: int| 0 <= j < i ==> #[trigger] a@[j]@ == b@[j]@,
        decreases a.len() - i,
    {
        if !line_eq(&a[i], &b[i]) {
            proof {
                assert(lines_view(a@)[i as int] != lines_view(b@)[i as int]);
            }
            return false;
        }
        i += 1;
    }
    proof {
        assert(lines_view(a@) =~= lines_view(b@));
    }
    true
}

/// `s` with its trailing whitespace removed.
pub open spec fn trim_end_ws(s: Seq<char>) -> Seq<char>
    decreases s.len(),
{
    if s.len() > 0 && is_ws(s.last()) {
        trim_end_ws(s.drop_last())
    } else {
        s
    }
}

/// The length of the trimmed prefix of `v@.take(upto)`: trailing whitespace
/// before `upto` is scanned off, and what remains is exactly
/// `trim_end_ws(v@.take(upto))`.
pub fn trimmed_len(v: &Vec<char>, upto: usize) -> (j: usize)
    requires
        upto <= v@.len(),
    ensures
        j <= upto,
        trim_end_ws(v@.take(upto as int)) == v@.take(j as int),
        j > 0 ==> !is_ws(v@[j - 1]),
{
    let mut j = upto;
    while j > 0 && is_whitespace(v[j - 1])
        invariant
            j <= upto,
            upto <= v@.len(),
            trim_end_ws(v@.take(upto as int)) == trim_end_ws(v@.take(j as int)),
        decreases j,
    {
        proof {
            assert(v@.take(j as int).drop_last() =~= v@.take(j - 1));
        }
        j = j - 1;
    }
    proof {
        if j > 0 {
            assert(v@.take(j as int).last() == v@[j - 1]);
        } else {
            assert(v@.take(0) =~= Seq::<char>::empty());
        }
    }
    j
}

/// The line with the span `[from, to)` removed.
pub fn splice_out(v: &Vec<char>, from: usize, to: usize) -> (r: Vec<char>)
    requires
        from <= to <= v@.len(),
    ensures
        r@ == v@.take(from as int) + v@.skip(to as int),
{
    let mut r: Vec<char> = Vec::new();
    let mut i: usize = 0;
    while i < from
        invariant
            i <= from,
            from <= to <= v@.len(),
            r@ == v@.subrange(0, i as int),
        decreases from - i,
    {
        r.push(v[i]);
        proof {
            assert(v@.subrange(0, i + 1 as int) =~= v@.subrange(0, i as int).push(v@[i as int]));
        }
        i += 1;
    }
    let mut k = to;
    while k < v.len()
        invariant
            to <= k <= v@.len(),
            from <= to,
            r@ == v@.take(from as int) + v@.subrange(to as int, k as int),
        decreases v@.len() - k,
    {
        r.push(v[k]);
        proof {
            assert(v@.take(from as int) + v@.subrange(to as int, k + 1 as int) =~= (v@.take(
                from as int,
            ) + v@.subrange(to as int, k as int)).push(v@[k as int]));
        }
        k += 1;
    }
    proof {
        assert(v@.subrange(to as int, v@.len() as int) =~= v@.skip(to as int));
    }
    r
}

/// The characters of `v` in the span `[from, to)`.
pub fn copy_range(v: &Vec<char>, from: usize, to: usize) -> (r: Vec<char>)
    requires
        from <= to <= v@.len(),
    ensures
        r@ == v@.subrange(from as int, to as int),
{
    let mut r: Vec<char> = Vec::new();
    let mut i = from;
    while i < to
        invariant
            from <= i <= to,
            to <= v@.len(),
            r@ == v@.subrange(from as int, i as int),
        decreases to - i,
    {
        r.push(v[i]);
        proof {
            assert(v@.subrange(from as int, i + 1 as int) =~= v@.subrange(
                from as int,
                i as int,
            ).push(v@[i as int]));
        }
        i += 1;
    }
    r
}

/// The digit character for `d`.
pub open spec fn digit_char(d: nat) -> char {
    if d == 0 {
        '0'
    } else if d == 1 {
        '1'
    } else if d == 2 {
        '2'
    } else if d == 3 {
        '3'
    } else if d == 4 {
        '4'
    } else if d == 5 {
        '5'
    } else if d == 6 {
        '6'
    } else if d == 7 {
        '7'
    } else if d == 8 {
        '8'
    } else {
        '9'
    }
}

/// The decimal digits of `n`, most significant first.
pub open spec fn dec_rep(n: nat) -> Seq<char>
    decreases n,
{
    if n < 10 {
        seq![digit_char(n)]
    } else {
        dec_rep(n / 10).push(digit_char(n % 10))
    }
}

fn digit_to_char(d: usize) -> (c: char)
    requires
        d < 10,
    ensures
        c == digit_char(d as nat),
{
    if d == 0 {
        '0'
    } else if d == 1 {
        '1'
    } else if d == 2 {
        '2'
    } else if d == 3 {
        '3'
    } else if d == 4 {
        '4'
    } else if d == 5 {
        '5'
    } else if d == 6 {
        '6'
    } else if d == 7 {
        '7'
    } else if d == 8 {
        '8'
    } else {
        '9'
    }
}

/// The decimal digits of `n`.
pub fn usize_to_chars(n: usize) -> (r: Vec<char>)
    ensures
        r@ == dec_rep(n as nat),
    decreases n,
{
    if n < 10 {
        let mut r: Vec<char> = Vec::new();
        r.push(digit_to_char(n));
        proof {
            assert(r@ =~= dec_rep(n as nat));
        }
        r
    } else {
        let mut r = usize_to_chars(n / 10);
        r.push(digit_to_char(n % 10));
        r
    }
}

} // verus!
