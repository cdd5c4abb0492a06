//! The editor aggregate: line buffer, cursor, mode, chord state, viewport
//! anchors and the last-saved baseline, with every cursor-addressed edit
//! operation.
//!
//! The mathematical model is [`EditorView`]: lines are sequences of
//! characters, the cursor is a `(row, column)` pair with
//! `0 <= row < lines.len()` and `0 <= col <= lines[row].len()`, and the
//! `modified` flag is derived, never set by hand: it holds exactly when the
//! current lines differ structurally from the baseline snapshot taken at the
//! last load or save. [`Editor::wf`] packages these invariants; every
//! operation preserves them.

use vstd::prelude::*;
use vstd::pervasive::VecAdditionalExecFns;

use crate::text::{
    clone_line, clone_lines, dec_rep, is_whitespace, is_ws, lines_eq, lines_view, splice_out,
    str_to_chars, strs_view, strs_to_lines, trim_end_ws, trimmed_len, usize_to_chars,
};

verus! {

/// Number of spaces a Tab key inserts.
pub const TAB_WIDTH: usize = 4;

/// The one-event-deep chord buffer: either nothing is pending or the
/// Control-x prefix has been seen and the next key completes (or cancels)
/// the chord.
#[derive(Clone, Copy, PartialEq, Eq, Structural, Debug)]
pub enum Command {
    Idle,
    CtrlX,
}

/// The mutually exclusive input modes.
#[derive(Clone, Copy, PartialEq, Eq, Structural, Debug)]
pub enum EditorMode {
    Normal,
    SaveFile,
    PromptQuit,
}

/// The mathematical state of the editor.
#[verifier::ext_equal]
pub ghost struct EditorView {
    pub mode: EditorMode,
    pub cmd: Command,
    pub filename: Seq<char>,
    pub cur_x: int,
    pub cur_y: int,
    pub lines: Seq<Seq<char>>,
    pub modified: bool,
    pub row_offset: int,
    pub col_offset: int,
    pub last_frame: Seq<Seq<char>>,
    pub filename_given: bool,
    pub message: Option<Seq<char>>,
    pub baseline: Seq<Seq<char>>,
}

/// The editor state: text buffer, cursor, mode, chord state, scroll
/// anchors, cached frame, and the baseline used to derive `modified`.
pub struct Editor {
    pub mode: EditorMode,
    pub cmd: Command,
    pub filename: Vec<char>,
    pub cur_x: usize,
    pub cur_y: usize,
    pub buf: Vec<Vec<char>>,
    pub modified: bool,
    pub row_offset: usize,
    pub col_offset: usize,
    pub last_frame: Vec<Vec<char>>,
    pub filename_given: bool,
    pub message: Option<Vec<char>>,
    pub original_buf: Vec<Vec<char>>,
}

impl View for Editor {
    type V = EditorView;

    open spec fn view(&self) -> EditorView {
        EditorView {
            mode: self.mode,
            cmd: self.cmd,
            filename: self.filename@,
            cur_x: self.cur_x as int,
            cur_y: self.cur_y as int,
            lines: lines_view(self.buf@),
            modified: self.modified,
            row_offset: self.row_offset as int,
            col_offset: self.col_offset as int,
            last_frame: lines_view(self.last_frame@),
            filename_given: self.filename_given,
            message: match self.message {
                Some(ref m) => Some(m@),
                None => None,
            },
            baseline: lines_view(self.original_buf@),
        }
    }
}

impl EditorView {
    /// The structural invariants: the buffer is never empty, the cursor sits
    /// on a line of the buffer at a column no greater than that line's
    /// length, and the modified flag is exactly the derived comparison
    /// against the baseline.
    pub open spec fn wf(self) -> bool {
        &&& self.lines.len() >= 1
        &&& 0 <= self.cur_y < self.lines.len()
        &&& 0 <= self.cur_x <= self.lines[self.cur_y].len()
        &&& self.modified == (self.lines != self.baseline)
    }
}

/// Recompute the derived modified flag after a content change.
pub open spec fn with_derived_modified(v: EditorView) -> EditorView {
    EditorView { modified: v.lines != v.baseline, ..v }
}

/// Cursor to column zero.
pub open spec fn spec_move_to_line_start(v: EditorView) -> EditorView {
    EditorView { cur_x: 0, ..v }
}

/// Cursor past the last character of the current line.
pub open spec fn spec_move_to_line_end(v: EditorView) -> EditorView {
    EditorView { cur_x: v.lines[v.cur_y].len() as int, ..v }
}

/// Cursor down one line, clamping the column to the new line's length.
pub open spec fn spec_move_next_line(v: EditorView) -> EditorView {
    if v.cur_y + 1 < v.lines.len() {
        let y = v.cur_y + 1;
        let l = v.lines[y].len() as int;
        EditorView { cur_y: y, cur_x: if v.cur_x < l { v.cur_x } else { l }, ..v }
    } else {
        v
    }
}

/// Cursor up one line, clamping the column to the new line's length.
pub open spec fn spec_move_prev_line(v: EditorView) -> EditorView {
    if v.cur_y > 0 {
        let y = v.cur_y - 1;
        let l = v.lines[y].len() as int;
        EditorView { cur_y: y, cur_x: if v.cur_x < l { v.cur_x } else { l }, ..v }
    } else {
        v
    }
}

/// The page jump distance for a terminal of `term_height` rows: the usable
/// text rows, two fewer than the full height.
pub open spec fn spec_page_size(term_height: int) -> int {
    if term_height >= 2 {
        term_height - 2
    } else {
        0
    }
}

/// Cursor down one page, clamped to the last line.
pub open spec fn spec_move_next_page(v: EditorView, term_height: int) -> EditorView {
    let page = spec_page_size(term_height);
    if v.cur_y + 1 < v.lines.len() {
        let last = v.lines.len() - 1;
        let y = if v.cur_y + page < last { v.cur_y + page } else { last as int };
        let l = v.lines[y].len() as int;
        EditorView { cur_y: y, cur_x: if v.cur_x < l { v.cur_x } else { l }, ..v }
    } else {
        v
    }
}

/// Cursor up one page, clamped to the first line.
pub open spec fn spec_move_prev_page(v: EditorView, term_height: int) -> EditorView {
    let page = spec_page_size(term_height);
    if v.cur_y > 0 {
        let y = if v.cur_y - page > 0 { v.cur_y - page } else { 0 };
        let l = v.lines[y].len() as int;
        EditorView { cur_y: y, cur_x: if v.cur_x < l { v.cur_x } else { l }, ..v }
    } else {
        v
    }
}

/// Cursor left one column, wrapping to the end of the previous line.
pub open spec fn spec_move_left(v: EditorView) -> EditorView {
    if v.cur_x > 0 {
        EditorView { cur_x: v.cur_x - 1, ..v }
    } else if v.cur_y > 0 {
        EditorView { cur_y: v.cur_y - 1, cur_x: v.lines[v.cur_y - 1].len() as int, ..v }
    } else {
        v
    }
}

/// Cursor right one column, wrapping to the start of the next line.
pub open spec fn spec_move_right(v: EditorView) -> EditorView {
    if v.cur_x < v.lines[v.cur_y].len() {
        EditorView { cur_x: v.cur_x + 1, ..v }
    } else if v.cur_y + 1 < v.lines.len() {
        EditorView { cur_y: v.cur_y + 1, cur_x: 0, ..v }
    } else {
        v
    }
}

/// Insert one character at the cursor and advance the column.
pub open spec fn spec_insert_char(v: EditorView, c: char) -> EditorView {
    with_derived_modified(
        EditorView {
            lines: v.lines.update(v.cur_y, v.lines[v.cur_y].insert(v.cur_x, c)),
            cur_x: v.cur_x + 1,
            ..v
        },
    )
}

/// Insert `TAB_WIDTH` spaces at the cursor.
pub open spec fn spec_insert_tab(v: EditorView) -> EditorView {
    spec_insert_char(
        spec_insert_char(spec_insert_char(spec_insert_char(v, ' '), ' '), ' '), ' ')
}

/// Split the current line at the cursor; the suffix becomes a new line
/// inserted immediately after, and the cursor moves to its start.
pub open spec fn spec_split_line(v: EditorView) -> EditorView {
    let line = v.lines[v.cur_y];
    with_derived_modified(
        EditorView {
            lines: v.lines.update(v.cur_y, line.take(v.cur_x)).insert(
                v.cur_y + 1,
                line.skip(v.cur_x),
            ),
            cur_y: v.cur_y + 1,
            cur_x: 0,
            ..v
        },
    )
}

/// Truncate the current line at the cursor.
pub open spec fn spec_kill_to_eol(v: EditorView) -> EditorView {
    with_derived_modified(
        EditorView { lines: v.lines.update(v.cur_y, v.lines[v.cur_y].take(v.cur_x)), ..v },
    )
}

/// Delete the character before the cursor, or merge with the previous line
/// when the cursor is at column zero.
pub open spec fn spec_del_prev_char(v: EditorView) -> EditorView {
    if v.cur_x > 0 {
        with_derived_modified(
            EditorView {
                lines: v.lines.update(v.cur_y, v.lines[v.cur_y].remove(v.cur_x - 1)),
                cur_x: v.cur_x - 1,
                ..v
            },
        )
    } else if v.cur_y > 0 {
        with_derived_modified(
            EditorView {
                lines: v.lines.update(v.cur_y - 1, v.lines[v.cur_y - 1] + v.lines[v.cur_y]).remove(
                    v.cur_y,
                ),
                cur_y: v.cur_y - 1,
                cur_x: v.lines[v.cur_y - 1].len() as int,
                ..v
            },
        )
    } else {
        v
    }
}

/// Delete the character under the cursor, or merge the next line into the
/// current one when the cursor sits at the end of its line.
pub open spec fn spec_del_next_char(v: EditorView) -> EditorView {
    if v.cur_x < v.lines[v.cur_y].len() {
        with_derived_modified(
            EditorView { lines: v.lines.update(v.cur_y, v.lines[v.cur_y].remove(v.cur_x)), ..v },
        )
    } else if v.cur_y + 1 < v.lines.len() {
        with_derived_modified(
            EditorView {
                lines: v.lines.update(v.cur_y, v.lines[v.cur_y] + v.lines[v.cur_y + 1]).remove(
                    v.cur_y + 1,
                ),
                ..v
            },
        )
    } else {
        v
    }
}

/// The first index at or after `from` holding a whitespace character, or
/// the line length when there is none.
pub open spec fn first_ws_at(s: Seq<char>, from: int) -> int
    decreases s.len() - from,
    when from <= s.len()
{
    if from >= s.len() {
        s.len() as int
    } else if is_ws(s[from]) {
        from
    } else {
        first_ws_at(s, from + 1)
    }
}

/// The first index at or after `from` holding a non-whitespace character,
/// or the line length when there is none.
pub open spec fn skip_ws_at(s: Seq<char>, from: int) -> int
    decreases s.len() - from,
    when from <= s.len()
{
    if from >= s.len() {
        s.len() as int
    } else if !is_ws(s[from]) {
        from
    } else {
        skip_ws_at(s, from + 1)
    }
}

/// The index of the last whitespace character of `t`, or `-1` when `t`
/// holds none.
pub open spec fn last_ws_before(t: Seq<char>) -> int
    decreases t.len(),
{
    if t.len() == 0 {
        -1
    } else if is_ws(t.last()) {
        t.len() - 1
    } else {
        last_ws_before(t.drop_last())
    }
}

/// Delete forward from the cursor through the first whitespace run: the
/// span from the cursor up to the first non-whitespace character after the
/// first whitespace character goes away; with no whitespace ahead, the rest
/// of the line goes away. The cursor stays put.
pub open spec fn spec_del_next_word(v: EditorView) -> EditorView {
    let s = v.lines[v.cur_y];
    let e = skip_ws_at(s, first_ws_at(s, v.cur_x));
    with_derived_modified(
        EditorView { lines: v.lines.update(v.cur_y, s.take(v.cur_x) + s.skip(e)), ..v },
    )
}

/// Delete backward from the cursor to the previous word boundary: trailing
/// whitespace before the cursor is scanned off, then the span from the
/// character after the preceding whitespace (or from the line start) up to
/// the cursor goes away. At column zero the current line merges onto the
/// previous one, exactly as a backward character delete would.
pub open spec fn spec_del_prev_word(v: EditorView) -> EditorView {
    if v.cur_x == 0 && v.cur_y > 0 {
        with_derived_modified(
            EditorView {
                lines: v.lines.update(v.cur_y - 1, v.lines[v.cur_y - 1] + v.lines[v.cur_y]).remove(
                    v.cur_y,
                ),
                cur_y: v.cur_y - 1,
                cur_x: v.lines[v.cur_y - 1].len() as int,
                ..v
            },
        )
    } else if v.cur_x > 0 {
        let s = v.lines[v.cur_y];
        let idx = last_ws_before(trim_end_ws(s.take(v.cur_x))) + 1;
        with_derived_modified(
            EditorView {
                lines: v.lines.update(v.cur_y, s.take(idx) + s.skip(v.cur_x)),
                cur_x: idx,
                ..v
            },
        )
    } else {
        v
    }
}

/// Split/merge inverse: splitting the line at the cursor (Enter) and then
/// immediately deleting the previous character at the resulting start of
/// the new line restores the original lines, the original cursor, and the
/// original modified flag.
pub proof fn lemma_split_merge_inverse(v: EditorView)
    requires
        v.wf(),
    ensures
        spec_del_prev_char(spec_split_line(v)).lines == v.lines,
        spec_del_prev_char(spec_split_line(v)).cur_y == v.cur_y,
        spec_del_prev_char(spec_split_line(v)).cur_x == v.cur_x,
        spec_del_prev_char(spec_split_line(v)).modified == v.modified,
{
    let line = v.lines[v.cur_y];
    let split = spec_split_line(v);
    assert(split.lines[v.cur_y] == line.take(v.cur_x));
    assert(split.lines[v.cur_y + 1] == line.skip(v.cur_x));
    assert(split.cur_x == 0 && split.cur_y == v.cur_y + 1);
    let after = spec_del_prev_char(split);
    assert(line.take(v.cur_x) + line.skip(v.cur_x) =~= line);
    assert(after.lines =~= v.lines);
    assert(after.cur_x == line.take(v.cur_x).len());
}

impl Editor {
    /// The structural invariants, stated on the view.
    pub open spec fn wf(&self) -> bool {
        self@.wf()
    }

    /// A fresh editor: one empty line, no filename, Normal mode.
    pub fn new() -> (r: Editor)
        ensures
            r.wf(),
            r@.mode == EditorMode::Normal,
            r@.cmd == Command::Idle,
            r@.filename == Seq::<char>::empty(),
            r@.cur_x == 0,
            r@.cur_y == 0,
            r@.lines == seq![Seq::<char>::empty()],
            !r@.modified,
            r@.row_offset == 0,
            r@.col_offset == 0,
            r@.last_frame == seq![Seq::<char>::empty()],
            !r@.filename_given,
            r@.message is None,
            r@.baseline == seq![Seq::<char>::empty()],
    {
        let mut buf: Vec<Vec<char>> = Vec::new();
        buf.push(Vec::new());
        let mut original_buf: Vec<Vec<char>> = Vec::new();
        original_buf.push(Vec::new());
        let mut last_frame: Vec<Vec<char>> = Vec::new();
        last_frame.push(Vec::new());
        let r = Editor {
            mode: EditorMode::Normal,
            cmd: Command::Idle,
            filename: Vec::new(),
            cur_x: 0,
            cur_y: 0,
            buf,
            modified: false,
            row_offset: 0,
            col_offset: 0,
            last_frame,
            filename_given: false,
            message: None,
            original_buf,
        };
        proof {
            assert(r@.lines =~= seq![Seq::<char>::empty()]);
            assert(r@.baseline =~= seq![Seq::<char>::empty()]);
            assert(r@.last_frame =~= seq![Seq::<char>::empty()]);
        }
        r
    }

    /// An editor over lines loaded from storage; the loaded lines become
    /// both buffer and baseline and the filename is remembered as
    /// confirmed. A load with no lines at all yields the single empty line
    /// that the buffer invariant requires.
    pub fn from_file(filename: String, buf: Vec<String>) -> (r: Editor)
        ensures
            r.wf(),
            r@.mode == EditorMode::Normal,
            r@.cmd == Command::Idle,
            r@.filename == filename@,
            r@.cur_x == 0,
            r@.cur_y == 0,
            r@.lines == if strs_view(buf@).len() == 0 {
                seq![Seq::<char>::empty()]
            } else {
                strs_view(buf@)
            },
            !r@.modified,
            r@.row_offset == 0,
            r@.col_offset == 0,
            r@.last_frame == seq![Seq::<char>::empty()],
            r@.filename_given,
            r@.message is None,
            r@.baseline == r@.lines,
    {
        let mut lines = strs_to_lines(&buf);
        if lines.len() == 0 {
            lines.push(Vec::new());
            proof {
                assert(lines_view(lines@) =~= seq![Seq::<char>::empty()]);
            }
        }
        let original_buf = clone_lines(&lines);
        let mut last_frame: Vec<Vec<char>> = Vec::new();
        last_frame.push(Vec::new());
        let r = Editor {
            mode: EditorMode::Normal,
            cmd: Command::Idle,
            filename: str_to_chars(filename.as_str()),
            cur_x: 0,
            cur_y: 0,
            buf: lines,
            modified: false,
            row_offset: 0,
            col_offset: 0,
            last_frame,
            filename_given: true,
            message: None,
            original_buf,
        };
        r
    }

    /// A fresh editor that remembers `filename` as its confirmed target
    /// (the path named a file that does not exist yet).
    pub fn new_with_filename(filename: String) -> (r: Editor)
        ensures
            r.wf(),
            r@.mode == EditorMode::Normal,
            r@.cmd == Command::Idle,
            r@.filename == filename@,
            r@.cur_x == 0,
            r@.cur_y == 0,
            r@.lines == seq![Seq::<char>::empty()],
            !r@.modified,
            r@.row_offset == 0,
            r@.col_offset == 0,
            r@.last_frame == seq![Seq::<char>::empty()],
            r@.filename_given,
            r@.message is None,
            r@.baseline == seq![Seq::<char>::empty()],
    {
        let mut e = Editor::new();
        e.filename = str_to_chars(filename.as_str());
        e.filename_given = true;
        e
    }

    /// Recompute the derived modified flag by structural comparison of the
    /// current lines against the baseline. `modified` holds afterwards if
    /// and only if the two differ.
    pub fn update_modified(&mut self)
        ensures
            final(self)@ == with_derived_modified(old(self)@),
    {
        self.modified = !lines_eq(&self.buf, &self.original_buf);
        proof {
            assert(final(self)@ =~~= with_derived_modified(old(self)@));
        }
    }

    /// Move the cursor to the start of the current line.
    pub fn move_to_line_start(&mut self)
        requires
            old(self).wf(),
        ensures
            final(self).wf(),
            final(self)@ == spec_move_to_line_start(old(self)@),
    {
        self.cur_x = 0;
        proof {
            assert(final(self)@ =~~= spec_move_to_line_start(old(self)@));
        }
    }

    /// Move the cursor past the last character of the current line.
    pub fn move_to_line_end(&mut self)
        requires
            old(self).wf(),
        ensures
            final(self).wf(),
            final(self)@ == spec_move_to_line_end(old(self)@),
    {
        self.cur_x = self.buf[self.cur_y].len();
        proof {
            assert(final(self)@ =~~= spec_move_to_line_end(old(self)@));
        }
    }

    /// Move the cursor down one line, clamping the column.
    pub fn move_next_line(&mut self)
        requires
            old(self).wf(),
        ensures
            final(self).wf(),
            final(self)@ == spec_move_next_line(old(self)@),
    {
        let n = self.buf.len();
        if self.cur_y + 1 < n {
            self.cur_y = self.cur_y + 1;
            let len = self.buf[self.cur_y].len();
            if self.cur_x > len {
                self.cur_x = len;
            }
        }
        proof {
            assert(final(self)@ =~~= spec_move_next_line(old(self)@));
        }
    }

    /// Move the cursor up one line, clamping the column.
    pub fn move_prev_line(&mut self)
        requires
            old(self).wf(),
        ensures
            final(self).wf(),
            final(self)@ == spec_move_prev_line(old(self)@),
    {
        if self.cur_y > 0 {
            self.cur_y = self.cur_y - 1;
            let len = self.buf[self.cur_y].len();
            if self.cur_x > len {
                self.cur_x = len;
            }
        }
        proof {
            assert(final(self)@ =~~= spec_move_prev_line(old(self)@));
        }
    }

    /// Move the cursor down one page (the usable viewport height of a
    /// terminal with `term_height` rows), clamped to the last line.
    pub fn move_next_page(&mut self, term_height: usize)
        requires
            old(self).wf(),
        ensures
            final(self).wf(),
            final(self)@ == spec_move_next_page(old(self)@, term_height as int),
    {
        let page: usize = if term_height >= 2 {
            term_height - 2
        } else {
            0
        };
        let n = self.buf.len();
        if self.cur_y + 1 < n {
            let last = n - 1;
            self.cur_y = if page < last - self.cur_y {
                self.cur_y + page
            } else {
                last
            };
            let len = self.buf[self.cur_y].len();
            if self.cur_x > len {
                self.cur_x = len;
            }
        }
        proof {
            assert(final(self)@ =~~= spec_move_next_page(old(self)@, term_height as int));
        }
    }

    /// Move the cursor up one page, clamped to the first line.
    pub fn move_prev_page(&mut self, term_height: usize)
        requires
            old(self).wf(),
        ensures
            final(self).wf(),
            final(self)@ == spec_move_prev_page(old(self)@, term_height as int),
    {
        let page: usize = if term_height >= 2 {
            term_height - 2
        } else {
            0
        };
        if self.cur_y > 0 {
            self.cur_y = if self.cur_y > page {
                self.cur_y - page
            } else {
                0
            };
            let len = self.buf[self.cur_y].len();
            if self.cur_x > len {
                self.cur_x = len;
            }
        }
        proof {
            assert(final(self)@ =~~= spec_move_prev_page(old(self)@, term_height as int));
        }
    }

    /// Move the cursor left one column, wrapping to the previous line end.
    pub fn move_left(&mut self)
        requires
            old(self).wf(),
        ensures
            final(self).wf(),
            final(self)@ == spec_move_left(old(self)@),
    {
        if self.cur_x > 0 {
            self.cur_x = self.cur_x - 1;
        } else if self.cur_y > 0 {
            self.cur_y = self.cur_y - 1;
            self.cur_x = self.buf[self.cur_y].len();
        }
        proof {
            assert(final(self)@ =~~= spec_move_left(old(self)@));
        }
    }

    /// Move the cursor right one column, wrapping to the next line start.
    pub fn move_right(&mut self)
        requires
            old(self).wf(),
        ensures
            final(self).wf(),
            final(self)@ == spec_move_right(old(self)@),
    {
        let n = self.buf.len();
        if self.cur_x < self.buf[self.cur_y].len() {
            self.cur_x = self.cur_x + 1;
        } else if self.cur_y + 1 < n {
            self.cur_y = self.cur_y + 1;
            self.cur_x = 0;
        }
        proof {
            assert(final(self)@ =~~= spec_move_right(old(self)@));
        }
    }

    /// Truncate the current line at the cursor (Emacs-style kill to end of
    /// line, without a kill ring).
    pub fn kill_to_eol(&mut self)
        requires
            old(self).wf(),
        ensures
            final(self).wf(),
            final(self)@ == spec_kill_to_eol(old(self)@),
    {
        let mut line = clone_line(&self.buf[self.cur_y]);
        line.truncate(self.cur_x);
        self.buf.set(self.cur_y, line);
        self.update_modified();
        proof {
            assert(final(self)@.lines =~= spec_kill_to_eol(old(self)@).lines);
            assert(final(self)@ =~~= spec_kill_to_eol(old(self)@));
        }
    }

    /// Insert `c` at the cursor and advance the column by one.
    pub fn insert_char(&mut self, c: char)
        requires
            old(self).wf(),
        ensures
            final(self).wf(),
            final(self)@ == spec_insert_char(old(self)@, c),
    {
        let mut line = clone_line(&self.buf[self.cur_y]);
        line.insert(self.cur_x, c);
        let _grown_len = line.len();
        self.buf.set(self.cur_y, line);
        self.cur_x = self.cur_x + 1;
        self.update_modified();
        proof {
            assert(final(self)@.lines =~= spec_insert_char(old(self)@, c).lines);
            assert(final(self)@ =~~= spec_insert_char(old(self)@, c));
        }
    }

    /// Insert `TAB_WIDTH` spaces at the cursor.
    pub fn insert_tab(&mut self)
        requires
            old(self).wf(),
        ensures
            final(self).wf(),
            final(self)@ == spec_insert_tab(old(self)@),
    {
        self.insert_char(' ');
        self.insert_char(' ');
        self.insert_char(' ');
        self.insert_char(' ');
    }

    /// Split the current line at the cursor: the suffix becomes a new line
    /// inserted immediately after, and the cursor moves to its start.
    pub fn split_line(&mut self)
        requires
            old(self).wf(),
        ensures
            final(self).wf(),
            final(self)@ == spec_split_line(old(self)@),
    {
        let _line_count = self.buf.len();
        let mut line = clone_line(&self.buf[self.cur_y]);
        let rest = line.split_off(self.cur_x);
        self.buf.set(self.cur_y, line);
        self.buf.insert(self.cur_y + 1, rest);
        self.cur_y = self.cur_y + 1;
        self.cur_x = 0;
        self.update_modified();
        proof {
            assert(final(self)@.lines =~= spec_split_line(old(self)@).lines);
            assert(final(self)@ =~~= spec_split_line(old(self)@));
        }
    }

    /// Delete the character before the cursor; at column zero, merge the
    /// current line onto the end of the previous one.
    pub fn del_prev_char(&mut self)
        requires
            old(self).wf(),
        ensures
            final(self).wf(),
            final(self)@ == spec_del_prev_char(old(self)@),
    {
        if self.cur_x > 0 {
            let mut line = clone_line(&self.buf[self.cur_y]);
            line.remove(self.cur_x - 1);
            self.buf.set(self.cur_y, line);
            self.cur_x = self.cur_x - 1;
            self.update_modified();
            proof {
                assert(final(self)@.lines =~= spec_del_prev_char(old(self)@).lines);
            }
        } else if self.cur_y > 0 {
            let mut current = self.buf.remove(self.cur_y);
            let mut prev = self.buf.remove(self.cur_y - 1);
            let prev_len = prev.len();
            prev.append(&mut current);
            self.buf.insert(self.cur_y - 1, prev);
            self.cur_y = self.cur_y - 1;
            self.cur_x = prev_len;
            self.update_modified();
            proof {
                assert(final(self)@.lines =~= spec_del_prev_char(old(self)@).lines);
            }
        }
        proof {
            assert(final(self)@ =~~= spec_del_prev_char(old(self)@));
        }
    }

    /// Delete the character under the cursor; at the end of a line, merge
    /// the next line into the current one without moving the cursor.
    pub fn del_next_char(&mut self)
        requires
            old(self).wf(),
        ensures
            final(self).wf(),
            final(self)@ == spec_del_next_char(old(self)@),
    {
        let n = self.buf.len();
        if self.cur_x < self.buf[self.cur_y].len() {
            let mut line = clone_line(&self.buf[self.cur_y]);
            line.remove(self.cur_x);
            self.buf.set(self.cur_y, line);
            self.update_modified();
            proof {
                assert(final(self)@.lines =~= spec_del_next_char(old(self)@).lines);
            }
        } else if self.cur_y + 1 < n {
            let mut next = self.buf.remove(self.cur_y + 1);
            let mut line = clone_line(&self.buf[self.cur_y]);
            line.append(&mut next);
            self.buf.set(self.cur_y, line);
            self.update_modified();
            proof {
                assert(final(self)@.lines =~= spec_del_next_char(old(self)@).lines);
            }
        }
        proof {
            assert(final(self)@ =~~= spec_del_next_char(old(self)@));
        }
    }

    /// Delete forward through the next word: from the cursor, the first
    /// whitespace character and the whitespace run right after it are
    /// consumed together with the word before them; with no whitespace
    /// ahead, the rest of the line is deleted.
    pub fn del_next_word(&mut self)
        requires
            old(self).wf(),
        ensures
            final(self).wf(),
            final(self)@ == spec_del_next_word(old(self)@),
    {
        let ghost l = self.buf@[self.cur_y as int]@;
        let len = self.buf[self.cur_y].len();
        let mut i = self.cur_x;
        while i < len && !is_whitespace(self.buf[self.cur_y][i])
            invariant
                self.cur_x <= i <= len,
                len == l.len(),
                l == self.buf@[self.cur_y as int]@,
                self.cur_y < self.buf@.len(),
                first_ws_at(l, self.cur_x as int) == first_ws_at(l, i as int),
            decreases len - i,
        {
            i += 1;
        }
        proof {
            assert(i == first_ws_at(l, self.cur_x as int));
        }
        let mut e = i;
        while e < len && is_whitespace(self.buf[self.cur_y][e])
            invariant
                i <= e <= len,
                len == l.len(),
                l == self.buf@[self.cur_y as int]@,
                self.cur_y < self.buf@.len(),
                skip_ws_at(l, i as int) == skip_ws_at(l, e as int),
            decreases len - e,
        {
            e += 1;
        }
        proof {
            assert(e == skip_ws_at(l, i as int));
        }
        let nl = splice_out(&self.buf[self.cur_y], self.cur_x, e);
        self.buf.set(self.cur_y, nl);
        self.update_modified();
        proof {
            assert(final(self)@.lines =~= spec_del_next_word(old(self)@).lines);
            assert(final(self)@ =~~= spec_del_next_word(old(self)@));
        }
    }

    /// Delete backward to the previous word boundary: trailing whitespace
    /// before the cursor is scanned off, then the preceding word is
    /// deleted up to the cursor. At column zero the current line merges
    /// onto the previous one. The exact boundary is the character after
    /// the last whitespace of the trimmed prefix, or the line start.
    pub fn del_prev_word(&mut self)
        requires
            old(self).wf(),
        ensures
            final(self).wf(),
            final(self)@ == spec_del_prev_word(old(self)@),
    {
        if self.cur_x == 0 && self.cur_y > 0 {
            let mut current = self.buf.remove(self.cur_y);
            let mut prev = self.buf.remove(self.cur_y - 1);
            let prev_len = prev.len();
            prev.append(&mut current);
            self.buf.insert(self.cur_y - 1, prev);
            self.cur_y = self.cur_y - 1;
            self.cur_x = prev_len;
            self.update_modified();
            proof {
                assert(final(self)@.lines =~= spec_del_prev_word(old(self)@).lines);
            }
        } else if self.cur_x > 0 {
            let ghost l = self.buf@[self.cur_y as int]@;
            let j = trimmed_len(&self.buf[self.cur_y], self.cur_x);
            let mut k = j;
            while k > 0 && !is_whitespace(self.buf[self.cur_y][k - 1])
                invariant
                    k <= j,
                    j <= self.cur_x <= l.len(),
                    l == self.buf@[self.cur_y as int]@,
                    self.cur_y < self.buf@.len(),
                    last_ws_before(l.take(j as int)) == last_ws_before(l.take(k as int)),
                decreases k,
            {
                proof {
                    assert(l.take(k as int).last() == l[k - 1]);
                    assert(l.take(k as int).drop_last() =~= l.take(k - 1));
                }
                k -= 1;
            }
            proof {
                if k > 0 {
                    assert(l.take(k as int).last() == l[k - 1]);
                    assert(last_ws_before(l.take(k as int)) == k - 1);
                } else {
                    assert(l.take(0) =~= Seq::<char>::empty());
                    assert(last_ws_before(l.take(k as int)) == -1);
                }
                assert(trim_end_ws(l.take(self.cur_x as int)) == l.take(j as int));
                assert(last_ws_before(trim_end_ws(l.take(self.cur_x as int))) + 1 == k);
            }
            let nl = splice_out(&self.buf[self.cur_y], k, self.cur_x);
            self.buf.set(self.cur_y, nl);
            self.cur_x = k;
            self.update_modified();
            proof {
                assert(final(self)@.lines =~= spec_del_prev_word(old(self)@).lines);
            }
        }
        proof {
            assert(final(self)@ =~~= spec_del_prev_word(old(self)@));
        }
    }

    /// The step that completes a quick-exit chord once the caller has
    /// attempted the save: a successful save means the session may end; a
    /// failed save surfaces the error as a one-shot message, forces the
    /// mode back to Normal, and keeps the session alive.
    pub fn quick_exit(&mut self, save_result: Result<usize, String>) -> (r: bool)
        requires
            old(self).wf(),
        ensures
            final(self).wf(),
            r == (save_result is Ok),
            match save_result {
                Ok(_) => final(self)@ == old(self)@,
                Err(e) => final(self)@ == (EditorView {
                    mode: EditorMode::Normal,
                    message: Some("Error saving file, cannot exit: "@ + e@),
                    ..old(self)@
                }),
            },
    {
        match save_result {
            Ok(_) => true,
            Err(e) => {
                let mut m = str_to_chars("Error saving file, cannot exit: ");
                let mut tail = str_to_chars(e.as_str());
                m.append(&mut tail);
                self.message = Some(m);
                self.mode = EditorMode::Normal;
                proof {
                    assert(final(self)@ =~~= (EditorView {
                        mode: EditorMode::Normal,
                        message: Some("Error saving file, cannot exit: "@ + e@),
                        ..old(self)@
                    }));
                }
                false
            },
        }
    }

    /// Decide the save-with-existing-filename chord: consume the chord
    /// prefix, and either report that a save of the buffer to the current
    /// filename is due (`true`: the caller saves and then calls
    /// [`Editor::finish_save`]) or, with no confirmed filename, enter the
    /// filename prompt instead (`false`).
    pub fn save_file(&mut self) -> (r: bool)
        requires
            old(self).wf(),
        ensures
            final(self).wf(),
            r == (old(self)@.filename_given && old(self)@.filename.len() > 0),
            r ==> final(self)@ == (EditorView { cmd: Command::Idle, ..old(self)@ }),
            !r ==> final(self)@ == (EditorView {
                cmd: Command::Idle,
                mode: EditorMode::SaveFile,
                ..old(self)@
            }),
    {
        self.cmd = Command::Idle;
        if self.filename_given && self.filename.len() > 0 {
            proof {
                assert(final(self)@ =~~= (EditorView { cmd: Command::Idle, ..old(self)@ }));
            }
            true
        } else {
            self.mode = EditorMode::SaveFile;
            proof {
                assert(final(self)@ =~~= (EditorView {
                    cmd: Command::Idle,
                    mode: EditorMode::SaveFile,
                    ..old(self)@
                }));
            }
            false
        }
    }

    /// Apply the outcome of the save that [`Editor::save_file`] requested:
    /// on success the current lines become the new baseline, the modified
    /// flag is rederived (to false), and a one-shot message reports the
    /// buffer's line count; on failure the error is surfaced as a one-shot
    /// message and the mode forced back to Normal.
    pub fn finish_save(&mut self, save_result: Result<usize, String>)
        requires
            old(self).wf(),
        ensures
            final(self).wf(),
            match save_result {
                Ok(_) => final(self)@ == (EditorView {
                    baseline: old(self)@.lines,
                    modified: false,
                    message: Some(
                        "(Wrote "@ + dec_rep(old(self)@.lines.len() as nat) + " lines)"@,
                    ),
                    ..old(self)@
                }),
                Err(e) => final(self)@ == (EditorView {
                    mode: EditorMode::Normal,
                    message: Some("Error saving file: "@ + e@),
                    ..old(self)@
                }),
            },
    {
        match save_result {
            Ok(_) => {
                self.original_buf = clone_lines(&self.buf);
                self.update_modified();
                let count = self.buf.len();
                let mut m = str_to_chars("(Wrote ");
                let mut digits = usize_to_chars(count);
                m.append(&mut digits);
                let mut tail = str_to_chars(" lines)");
                m.append(&mut tail);
                self.message = Some(m);
                proof {
                    assert(final(self)@ =~~= (EditorView {
                        baseline: old(self)@.lines,
                        modified: false,
                        message: Some(
                            "(Wrote "@ + dec_rep(old(self)@.lines.len() as nat) + " lines)"@,
                        ),
                        ..old(self)@
                    }));
                }
            },
            Err(e) => {
                let mut m = str_to_chars("Error saving file: ");
                let mut tail = str_to_chars(e.as_str());
                m.append(&mut tail);
                self.message = Some(m);
                self.mode = EditorMode::Normal;
                proof {
                    assert(final(self)@ =~~= (EditorView {
                        mode: EditorMode::Normal,
                        message: Some("Error saving file: "@ + e@),
                        ..old(self)@
                    }));
                }
            },
        }
    }

    /// Apply the outcome of the save requested from the filename prompt:
    /// on success the current lines become the new baseline and the
    /// modified flag is rederived; a nonzero changed-line count is
    /// reported as a one-shot message (with singular/plural agreement),
    /// while a zero count stays silent. On failure the error is surfaced
    /// and the mode forced back to Normal.
    pub fn finish_prompt_save(&mut self, save_result: Result<usize, String>)
        requires
            old(self).wf(),
        ensures
            final(self).wf(),
            match save_result {
                Ok(n) => final(self)@ == (EditorView {
                    baseline: old(self)@.lines,
                    modified: false,
                    message: if n == 0 {
                        old(self)@.message
                    } else if n == 1 {
                        Some("(Wrote "@ + dec_rep(n as nat) + " line)"@)
                    } else {
                        Some("(Wrote "@ + dec_rep(n as nat) + " lines)"@)
                    },
                    ..old(self)@
                }),
                Err(e) => final(self)@ == (EditorView {
                    mode: EditorMode::Normal,
                    message: Some("Error saving file: "@ + e@),
                    ..old(self)@
                }),
            },
    {
        match save_result {
            Ok(n) => {
                self.original_buf = clone_lines(&self.buf);
                self.update_modified();
                if n > 0 {
                    let mut m = str_to_chars("(Wrote ");
                    let mut digits = usize_to_chars(n);
                    m.append(&mut digits);
                    let mut tail = if n == 1 {
                        str_to_chars(" line)")
                    } else {
                        str_to_chars(" lines)")
                    };
                    m.append(&mut tail);
                    self.message = Some(m);
                }
                proof {
                    assert(final(self)@ =~~= (EditorView {
                        baseline: old(self)@.lines,
                        modified: false,
                        message: if n == 0 {
                            old(self)@.message
                        } else if n == 1 {
                            Some("(Wrote "@ + dec_rep(n as nat) + " line)"@)
                        } else {
                            Some("(Wrote "@ + dec_rep(n as nat) + " lines)"@)
                        },
                        ..old(self)@
                    }));
                }
            },
            Err(e) => {
                let mut m = str_to_chars("Error saving file: ");
                let mut tail = str_to_chars(e.as_str());
                m.append(&mut tail);
                self.message = Some(m);
                self.mode = EditorMode::Normal;
                proof {
                    assert(final(self)@ =~~= (EditorView {
                        mode: EditorMode::Normal,
                        message: Some("Error saving file: "@ + e@),
                        ..old(self)@
                    }));
                }
            },
        }
    }

    /// Decide the quit chord: with an unmodified buffer the session may
    /// end at once (`true`); with unsaved changes the editor asks for
    /// confirmation instead.
    pub fn quit(&mut self) -> (r: bool)
        requires
            old(self).wf(),
        ensures
            final(self).wf(),
            r == !old(self)@.modified,
            r ==> final(self)@ == old(self)@,
            !r ==> final(self)@ == (EditorView { mode: EditorMode::PromptQuit, ..old(self)@ }),
    {
        if !self.modified {
            true
        } else {
            self.mode = EditorMode::PromptQuit;
            proof {
                assert(final(self)@ =~~= (EditorView {
                    mode: EditorMode::PromptQuit,
                    ..old(self)@
                }));
            }
            false
        }
    }

    /// Enter the filename prompt and consume the chord prefix.
    pub fn write_buffer(&mut self)
        requires
            old(self).wf(),
        ensures
            final(self).wf(),
            final(self)@ == (EditorView {
                mode: EditorMode::SaveFile,
                cmd: Command::Idle,
                ..old(self)@
            }),
    {
        self.mode = EditorMode::SaveFile;
        self.cmd = Command::Idle;
        proof {
            assert(final(self)@ =~~= (EditorView {
                mode: EditorMode::SaveFile,
                cmd: Command::Idle,
                ..old(self)@
            }));
        }
    }
}

} // verus!
