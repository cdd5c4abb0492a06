//! The status line: a pure function from buffer state to a string of
//! exactly the terminal width.
//!
//! The left segment holds the modified marker, the editor name and
//! version, the filename (or a placeholder), the encoding label, and the
//! path relative to the working directory when the caller could derive
//! one. The right segment is the scroll-position indicator: `All` when the
//! whole buffer fits the viewport, `Top` at the start, `Bot` when the last
//! page is fully shown, otherwise an integer percentage of scroll
//! progress. A dash filler joins the two segments so the line fills the
//! terminal width exactly; content that would not fit is truncated to the
//! width.

use vstd::prelude::*;

use vstd::arithmetic::div_mod::lemma_multiply_divide_lt;

use crate::text::{chars_to_string, dec_rep, str_to_chars, usize_to_chars};

verus! {

/// The editor version shown in the status line.
pub const VERSION: &'static str = "0.2.0";

/// The rounded integer percentage of scroll progress: how far `row_offset`
/// has travelled towards the greatest offset that still shows the last
/// page, rounded to the nearest percent (half rounds up).
pub open spec fn spec_percent(total: int, viewport: int, row_offset: int) -> int {
    let d = total - viewport;
    (200 * row_offset + d) / (2 * d)
}

/// The scroll-position indicator text.
pub open spec fn spec_pos_marker(total: int, viewport: int, row_offset: int) -> Seq<char> {
    if total <= viewport {
        "All"@
    } else if row_offset == 0 {
        "Top"@
    } else if row_offset + viewport >= total {
        "Bot"@
    } else {
        dec_rep(spec_percent(total, viewport, row_offset) as nat) + "%"@
    }
}

/// A run of `n` dash characters (none when `n` is not positive).
pub open spec fn spec_dashes(n: int) -> Seq<char> {
    Seq::new(if n > 0 {
        n as nat
    } else {
        0
    }, |i: int| '-')
}

/// The left segment of the status line.
pub open spec fn spec_status_left(
    modified: bool,
    filename: Seq<char>,
    rel_path: Seq<char>,
) -> Seq<char> {
    (if modified {
        "-*"@
    } else {
        "--"@
    }) + " Remacs "@ + VERSION@ + ": "@ + (if filename.len() == 0 {
        "[No name]"@
    } else {
        filename
    }) + " ("@ + "utf-8"@ + ") "@ + rel_path + " "@
}

/// The right segment of the status line.
pub open spec fn spec_status_right(total: int, viewport: int, row_offset: int) -> Seq<char> {
    " "@ + spec_pos_marker(total, viewport, row_offset) + " --"@
}

/// The whole status line: left segment, dash filler, right segment,
/// truncated to exactly `width` characters.
pub open spec fn spec_statusline(
    modified: bool,
    filename: Seq<char>,
    rel_path: Seq<char>,
    total: int,
    row_offset: int,
    width: int,
    height: int,
) -> Seq<char> {
    let viewport = height - 2;
    let left = spec_status_left(modified, filename, rel_path);
    let right = spec_status_right(total, viewport, row_offset);
    let fill = if left.len() + right.len() <= width {
        width - left.len() - right.len()
    } else {
        0
    };
    (left + spec_dashes(fill) + right).take(width)
}

/// The rounded scroll percentage, in whole percent.
fn scroll_percent(total: usize, viewport: usize, row_offset: usize) -> (p: usize)
    requires
        viewport < total,
        row_offset + viewport < total,
    ensures
        p == spec_percent(total as int, viewport as int, row_offset as int),
        p <= 100,
{
    let d = total - viewport;
    let num: u128 = 200u128 * (row_offset as u128) + (d as u128);
    let den: u128 = 2u128 * (d as u128);
    let p128 = num / den;
    proof {
        let a = 200 * (row_offset as int) + (d as int);
        let b = 2 * (d as int);
        assert(a < b * 101) by {
            assert(row_offset as int <= d as int - 1);
        }
        lemma_multiply_divide_lt(a, b, 101);
        assert(p128 as int == a / b);
    }
    p128 as usize
}

/// Build the status line from buffer state. The result always holds
/// exactly `term_width` characters: dash-padded when the content is
/// short, truncated when it is long.
pub fn create_statusline(
    modified: bool,
    filename: &Vec<char>,
    rel_path: &Vec<char>,
    total_lines: usize,
    row_offset: usize,
    term_width: usize,
    term_height: usize,
) -> (r: String)
    requires
        term_height >= 2,
    ensures
        r@ == spec_statusline(
            modified,
            filename@,
            rel_path@,
            total_lines as int,
            row_offset as int,
            term_width as int,
            term_height as int,
        ),
        r@.len() == term_width,
{
    let viewport = term_height - 2;

    let mut left: Vec<char> = str_to_chars(if modified {
        "-*"
    } else {
        "--"
    });
    let mut piece = str_to_chars(" Remacs ");
    left.append(&mut piece);
    let mut piece = str_to_chars(VERSION);
    left.append(&mut piece);
    let mut piece = str_to_chars(": ");
    left.append(&mut piece);
    let mut piece = if filename.len() == 0 {
        str_to_chars("[No name]")
    } else {
        crate::text::clone_line(filename)
    };
    left.append(&mut piece);
    let mut piece = str_to_chars(" (");
    left.append(&mut piece);
    let mut piece = str_to_chars("utf-8");
    left.append(&mut piece);
    let mut piece = str_to_chars(") ");
    left.append(&mut piece);
    let mut piece = crate::text::clone_line(rel_path);
    left.append(&mut piece);
    let mut piece = str_to_chars(" ");
    left.append(&mut piece);

    let mut right: Vec<char> = str_to_chars(" ");
    let mut marker = if total_lines <= viewport {
        str_to_chars("All")
    } else if row_offset == 0 {
        str_to_chars("Top")
    } else if row_offset >= total_lines - viewport {
        str_to_chars("Bot")
    } else {
        let mut digits = usize_to_chars(scroll_percent(total_lines, viewport, row_offset));
        let mut sign = str_to_chars("%");
        digits.append(&mut sign);
        digits
    };
    right.append(&mut marker);
    let mut piece = str_to_chars(" --");
    right.append(&mut piece);

    proof {
        assert(left@ == spec_status_left(modified, filename@, rel_path@));
        assert(right@ == spec_status_right(
            total_lines as int,
            viewport as int,
            row_offset as int,
        ));
    }

    let mut line = left;
    let llen = line.len();
    let rlen = right.len();
    if llen < term_width && rlen <= term_width - llen {
        let fill = term_width - llen - rlen;
        let mut k: usize = 0;
        while k < fill
            invariant
                k <= fill,
                line@ == spec_status_left(modified, filename@, rel_path@) + spec_dashes(k as int),
            decreases fill - k,
        {
            line.push('-');
            proof {
                assert(spec_dashes(k + 1 as int) =~= spec_dashes(k as int).push('-'));
            }
            k += 1;
        }
        let mut tail = right;
        line.append(&mut tail);
    } else {
        let mut tail = right;
        line.append(&mut tail);
        proof {
            assert(spec_dashes(0) =~= Seq::<char>::empty());
        }
    }
    line.truncate(term_width);
    proof {
        assert(line@ =~= spec_statusline(
            modified,
            filename@,
            rel_path@,
            total_lines as int,
            row_offset as int,
            term_width as int,
            term_height as int,
        ));
    }
    chars_to_string(&line)
}

} // verus!
