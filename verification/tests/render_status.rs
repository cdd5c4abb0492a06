//! The renderer's frame plans and the status line formatter.

use remacs::editor::{Editor, EditorMode};
use remacs::input::{dispatch_key, KeyCode, KeyEvent};
use remacs::render::RenderPlan;
use remacs::statusline::create_statusline;
use remacs::text::str_to_chars;

const W: usize = 80;

fn plain(c: char) -> KeyEvent {
    KeyEvent { code: KeyCode::Char(c), ctrl: false, alt: false }
}

fn plan(e: &mut Editor, height: usize) -> RenderPlan {
    e.render_plan(W, height, "")
}

#[test]
fn first_frame_draws_every_row() {
    let mut e = Editor::new();
    let p = plan(&mut e, 12);
    assert_eq!(p.rows.len(), 10);
    // the cached frame starts with one empty row, so row 0 matches the
    // empty buffer line and every other row needs its filler glyph
    assert_eq!(p.rows[0], None);
    for i in 1..10 {
        assert_eq!(p.rows[i].as_deref(), Some("~"));
    }
    assert_eq!((p.cursor_col, p.cursor_row), (0, 0));
}

#[test]
fn unchanged_frame_draws_nothing() {
    let mut e = Editor::new();
    let _ = plan(&mut e, 12);
    let p = plan(&mut e, 12);
    assert_eq!(p.rows.len(), 10);
    assert!(p.rows.iter().all(|r| r.is_none()));
}

#[test]
fn editing_redraws_only_the_touched_row() {
    let mut e = Editor::new();
    let _ = plan(&mut e, 12);
    e.insert_char('a');
    let p = plan(&mut e, 12);
    assert_eq!(p.rows[0].as_deref(), Some("a"));
    assert!(p.rows[1..].iter().all(|r| r.is_none()));
    assert_eq!((p.cursor_col, p.cursor_row), (1, 0));
}

#[test]
fn scroll_jumps_exactly_once_past_the_viewport() {
    let mut e = Editor::new();
    let _ = plan(&mut e, 12);
    // usable height 10: move the cursor to row 15 = 10 + 5
    for _ in 0..15 {
        e.split_line();
    }
    assert_eq!(e.row_offset, 0);
    let _ = plan(&mut e, 12);
    // one jump to 15 - 10 + 1, not a step at a time
    assert_eq!(e.row_offset, 6);
    // moving back above the window jumps the offset to the cursor row
    e.cur_y = 2;
    e.cur_x = 0;
    let _ = plan(&mut e, 12);
    assert_eq!(e.row_offset, 2);
    // inside the window nothing moves
    e.cur_y = 4;
    let _ = plan(&mut e, 12);
    assert_eq!(e.row_offset, 2);
}

#[test]
fn render_clears_one_shot_message() {
    let mut e = Editor::new();
    e.message = Some(str_to_chars("(Key not bound)"));
    let p = plan(&mut e, 12);
    assert_eq!(p.prompt.as_deref(), Some("(Key not bound)"));
    assert!(e.message.is_none());
    let p = plan(&mut e, 12);
    assert_eq!(p.prompt, None);
}

#[test]
fn prompts_position_the_cursor_after_their_text() {
    let mut e = Editor::new();
    e.mode = EditorMode::SaveFile;
    for c in "out".chars() {
        dispatch_key(&mut e, plain(c), 12);
    }
    let p = plan(&mut e, 12);
    assert_eq!(p.prompt.as_deref(), Some("Write file: out"));
    assert_eq!(p.cursor_col, "Write file: out".len());
    assert_eq!(p.cursor_row, 11);

    let mut e = Editor::new();
    e.mode = EditorMode::PromptQuit;
    let p = plan(&mut e, 12);
    assert_eq!(
        p.prompt.as_deref(),
        Some("Modified buffers exist. Leave anyway (y/n)? ")
    );
    assert_eq!(p.cursor_row, 11);
}

#[test]
fn status_line_is_always_terminal_width() {
    for width in [10usize, 20, 40, 80, 120] {
        for name in ["", "a.txt", "a-very-long-filename-that-overflows-the-whole-terminal-width-for-sure.txt"] {
            let s = create_statusline(
                false,
                &str_to_chars(name),
                &str_to_chars(name),
                100,
                30,
                width,
                12,
            );
            assert_eq!(s.chars().count(), width, "width {width} name {name}");
        }
    }
}

#[test]
fn status_line_content_and_markers() {
    // whole buffer fits: All
    let s = create_statusline(false, &str_to_chars(""), &str_to_chars(""), 5, 0, 60, 12);
    assert!(s.starts_with("-- Remacs 0.2.0: [No name] (utf-8)  "));
    assert!(s.ends_with(" All --"));
    // modified marker and Top
    let s = create_statusline(true, &str_to_chars("f.txt"), &str_to_chars("f.txt"), 100, 0, 60, 12);
    assert!(s.starts_with("-* Remacs 0.2.0: f.txt (utf-8) f.txt "));
    assert!(s.ends_with(" Top --"));
    // last page fully shown: Bot
    let s = create_statusline(false, &str_to_chars("f"), &str_to_chars("f"), 100, 90, 60, 12);
    assert!(s.ends_with(" Bot --"));
    // halfway: a percentage
    let s = create_statusline(false, &str_to_chars("f"), &str_to_chars("f"), 110, 50, 60, 12);
    assert!(s.ends_with(" 50% --"));
}

#[test]
fn status_row_uses_offset_after_scroll() {
    let mut e = Editor::new();
    for _ in 0..30 {
        e.split_line();
    }
    let p = plan(&mut e, 12);
    // offset jumped to 21; 30 lines above... status reflects the new offset
    assert_eq!(e.row_offset, 21);
    assert_eq!(p.status.chars().count(), W);
    assert!(p.status.ends_with(" Bot --"));
}

#[test]
fn rows_show_window_after_scroll() {
    let mut e = Editor::new();
    for c in "first".chars() {
        e.insert_char(c);
    }
    for i in 0..20 {
        e.split_line();
        for c in format!("line{i}").chars() {
            e.insert_char(c);
        }
    }
    let p = plan(&mut e, 12);
    assert_eq!(e.row_offset, 11);
    // the visible window is rows 11..21 of the buffer
    assert_eq!(p.rows[0].as_deref(), Some("line10"));
    assert_eq!(p.rows[9].as_deref(), Some("line19"));
    assert_eq!(p.cursor_row, 9);
}
