//! The incremental renderer: compute one frame as data.
//!
//! Each pass jump-scrolls the vertical offset so the cursor row is back
//! inside the usable viewport (the terminal height minus the two reserved
//! rows), diffs the visible window against the previously drawn frame, and
//! reports exactly the rows whose content changed, together with the
//! status line, the prompt or one-shot message for the bottom row, and the
//! terminal cursor position. The caller writes the reported rows to the
//! screen; rows that did not change are not reported and need no write.

use vstd::prelude::*;
use vstd::pervasive::VecAdditionalExecFns;

use crate::editor::{Editor, EditorMode, EditorView};
use crate::statusline::{create_statusline, spec_statusline};
use crate::text::{chars_to_string, clone_line, line_eq, lines_view, str_to_chars};

verus! {

/// One computed frame: for each usable screen row either the line to draw
/// there (`Some`) or nothing because the row still shows the right content
/// (`None`); the status line; the bottom-row prompt or message, if any;
/// and where the terminal cursor belongs.
pub struct RenderPlan {
    pub rows: Vec<Option<String>>,
    pub status: String,
    pub prompt: Option<String>,
    pub cursor_col: usize,
    pub cursor_row: usize,
}

/// The content screen row `i` must show: the buffer line `row_offset + i`,
/// or the filler glyph for rows past the end of the buffer.
pub open spec fn candidate_line(lines: Seq<Seq<char>>, row_offset: int, i: int) -> Seq<char> {
    if row_offset + i < lines.len() {
        lines[row_offset + i]
    } else {
        seq!['~']
    }
}

/// The vertical offset after the jump-scroll: when the cursor row has
/// left the viewport the offset moves by exactly the amount that brings
/// the row back to the nearer edge, in one step; otherwise it stays.
pub open spec fn spec_scrolled_offset(v: EditorView, screen_lines: int) -> int {
    if v.cur_y < v.row_offset {
        v.cur_y
    } else if v.cur_y >= v.row_offset + screen_lines {
        v.cur_y - screen_lines + 1
    } else {
        v.row_offset
    }
}

/// Whether screen row `i` must be redrawn, given what the previous frame
/// shows there: it must when the previous frame has no row `i` or shows
/// different content.
pub open spec fn row_stale(last_frame: Seq<Seq<char>>, cand: Seq<char>, i: int) -> bool {
    !(i < last_frame.len() && last_frame[i] == cand)
}

impl Editor {
    /// Compute one frame. Afterwards the cursor row sits inside the
    /// usable viewport (`row_offset` jumped exactly as far as needed, and
    /// no further), the cached frame holds exactly the visible window,
    /// the one-shot message is consumed, and the plan reports precisely
    /// the screen rows whose content changed, the status line of exactly
    /// the terminal width, and the prompt text and cursor position for
    /// the current mode.
    pub fn render_plan(&mut self, term_width: usize, term_height: usize, rel_path: &str) -> (p:
        RenderPlan)
        requires
            old(self).wf(),
            term_height >= 2,
        ensures
            final(self).wf(),
            final(self)@ == (EditorView {
                row_offset: spec_scrolled_offset(old(self)@, term_height - 2),
                last_frame: Seq::new(
                    (term_height - 2) as nat,
                    |i: int|
                        candidate_line(
                            old(self)@.lines,
                            spec_scrolled_offset(old(self)@, term_height - 2),
                            i,
                        ),
                ),
                message: None,
                ..old(self)@
            }),
            p.rows@.len() == term_height - 2,
            forall|i: int|
                0 <= i < term_height - 2 ==> match #[trigger] p.rows@[i] {
                    Some(s) => row_stale(
                        old(self)@.last_frame,
                        candidate_line(
                            old(self)@.lines,
                            spec_scrolled_offset(old(self)@, term_height - 2),
                            i,
                        ),
                        i,
                    ) && s@ == candidate_line(
                        old(self)@.lines,
                        spec_scrolled_offset(old(self)@, term_height - 2),
                        i,
                    ),
                    None => !row_stale(
                        old(self)@.last_frame,
                        candidate_line(
                            old(self)@.lines,
                            spec_scrolled_offset(old(self)@, term_height - 2),
                            i,
                        ),
                        i,
                    ),
                },
            p.status@ == spec_statusline(
                old(self)@.modified,
                old(self)@.filename,
                rel_path@,
                old(self)@.lines.len() as int,
                spec_scrolled_offset(old(self)@, term_height - 2),
                term_width as int,
                term_height as int,
            ),
            p.status@.len() == term_width,
            match old(self)@.mode {
                EditorMode::SaveFile => {
                    &&& p.prompt matches Some(s) && s@ == "Write file: "@ + old(self)@.filename
                    &&& p.cursor_col == "Write file: "@.len() + old(self)@.filename.len()
                    &&& p.cursor_row == term_height - 1
                },
                EditorMode::PromptQuit => {
                    &&& p.prompt matches Some(s) && s@
                        == "Modified buffers exist. Leave anyway (y/n)? "@
                    &&& p.cursor_col == "Modified buffers exist. Leave anyway (y/n)? "@.len()
                    &&& p.cursor_row == term_height - 1
                },
                EditorMode::Normal => {
                    &&& match old(self)@.message {
                        Some(m) => p.prompt matches Some(s) && s@ == m,
                        None => p.prompt is None,
                    }
                    &&& p.cursor_col == if old(self)@.cur_x >= old(self)@.col_offset {
                        old(self)@.cur_x - old(self)@.col_offset
                    } else {
                        0
                    }
                    &&& p.cursor_row == if old(self)@.cur_y >= spec_scrolled_offset(
                        old(self)@,
                        term_height - 2,
                    ) {
                        old(self)@.cur_y - spec_scrolled_offset(old(self)@, term_height - 2)
                    } else {
                        0
                    }
                },
            },
    {
        let screen_lines = term_height - 2;
        let n = self.buf.len();

        if self.cur_y < self.row_offset {
            self.row_offset = self.cur_y;
        } else if self.cur_y - self.row_offset >= screen_lines {
            self.row_offset = self.cur_y - screen_lines + 1;
        }
        let ghost ro = self.row_offset as int;
        proof {
            assert(ro == spec_scrolled_offset(old(self)@, term_height - 2));
        }

        self.last_frame.truncate(screen_lines);
        let ghost tr0 = lines_view(self.last_frame@);
        let ghost lines0 = self@.lines;
        proof {
            assert(forall|j: int|
                0 <= j < screen_lines ==> row_stale(tr0, #[trigger] candidate_line(lines0, ro, j), j)
                    == row_stale(
                    old(self)@.last_frame,
                    candidate_line(lines0, ro, j),
                    j,
                ));
        }

        let mut rows: Vec<Option<String>> = Vec::new();
        let mut i: usize = 0;
        while i < screen_lines
            invariant
                i <= screen_lines,
                rows@.len() == i,
                n == lines0.len(),
                self.row_offset <= n,
                self.row_offset == ro,
                self@.lines == lines0,
                self.buf@.len() == n,
                tr0.len() <= screen_lines,
                self.last_frame@.len() == if i >= tr0.len() {
                    i as int
                } else {
                    tr0.len() as int
                },
                forall|j: int|
                    0 <= j < i ==> #[trigger] self.last_frame@[j]@ == candidate_line(
                        lines0,
                        ro,
                        j,
                    ),
                forall|j: int|
                    i <= j < self.last_frame@.len() ==> #[trigger] self.last_frame@[j]@ == tr0[j],
                forall|j: int|
                    0 <= j < i ==> match #[trigger] rows@[j] {
                        Some(s) => row_stale(tr0, candidate_line(lines0, ro, j), j) && s@
                            == candidate_line(lines0, ro, j),
                        None => !row_stale(tr0, candidate_line(lines0, ro, j), j),
                    },
                self.mode == old(self).mode,
                self.cmd == old(self).cmd,
                self.filename@ == old(self)@.filename,
                self.cur_x == old(self).cur_x,
                self.cur_y == old(self).cur_y,
                self.modified == old(self).modified,
                self.col_offset == old(self).col_offset,
                self.filename_given == old(self).filename_given,
                self@.message == old(self)@.message,
                self@.baseline == old(self)@.baseline,
            decreases screen_lines - i,
        {
            let cand: Vec<char> = if i < n - self.row_offset {
                clone_line(&self.buf[self.row_offset + i])
            } else {
                let mut t: Vec<char> = Vec::new();
                t.push('~');
                proof {
                    assert(t@ =~= seq!['~']);
                }
                t
            };
            proof {
                assert(cand@ == candidate_line(lines0, ro, i as int));
            }
            let fresh = i < self.last_frame.len() && line_eq(&self.last_frame[i], &cand);
            if fresh {
                rows.push(None);
            } else {
                rows.push(Some(chars_to_string(&cand)));
            }
            if i < self.last_frame.len() {
                self.last_frame.set(i, cand);
            } else {
                self.last_frame.push(cand);
            }
            i += 1;
        }

        let rel = str_to_chars(rel_path);
        let status = create_statusline(
            self.modified,
            &self.filename,
            &rel,
            n,
            self.row_offset,
            term_width,
            term_height,
        );

        let prompt: Option<String>;
        let cursor_col: usize;
        let cursor_row: usize;
        match self.mode {
            EditorMode::SaveFile => {
                let mut p = str_to_chars("Write file: ");
                let mut f = clone_line(&self.filename);
                p.append(&mut f);
                cursor_col = p.len();
                cursor_row = term_height - 1;
                prompt = Some(chars_to_string(&p));
            },
            EditorMode::PromptQuit => {
                let p = str_to_chars("Modified buffers exist. Leave anyway (y/n)? ");
                cursor_col = p.len();
                cursor_row = term_height - 1;
                prompt = Some(chars_to_string(&p));
            },
            EditorMode::Normal => {
                prompt = match &self.message {
                    Some(m) => Some(chars_to_string(m)),
                    None => None,
                };
                cursor_col = if self.cur_x >= self.col_offset {
                    self.cur_x - self.col_offset
                } else {
                    0
                };
                cursor_row = if self.cur_y >= self.row_offset {
                    self.cur_y - self.row_offset
                } else {
                    0
                };
            },
        }
        self.message = None;

        proof {
            assert(lines_view(self.last_frame@) =~= Seq::new(
                (term_height - 2) as nat,
                |i: int| candidate_line(old(self)@.lines, ro, i),
            ));
            assert(final(self)@ =~~= (EditorView {
                row_offset: spec_scrolled_offset(old(self)@, term_height - 2),
                last_frame: Seq::new(
                    (term_height - 2) as nat,
                    |i: int|
                        candidate_line(
                            old(self)@.lines,
                            spec_scrolled_offset(old(self)@, term_height - 2),
                            i,
                        ),
                ),
                message: None,
                ..old(self)@
            }));
        }

        RenderPlan { rows, status, prompt, cursor_col, cursor_row }
    }
}

} // verus!
