//! The modal dispatcher: chords, prefix consumption, prompts, and the
//! effects handed back to the caller.

use remacs::editor::{Command, Editor, EditorMode};
use remacs::input::{dispatch_key, Effect, KeyCode, KeyEvent, SaveKind};
use remacs::text::chars_to_string;

const H: usize = 24;

fn key(code: KeyCode) -> KeyEvent {
    KeyEvent { code, ctrl: false, alt: false }
}

fn ctrl(c: char) -> KeyEvent {
    KeyEvent { code: KeyCode::Char(c), ctrl: true, alt: false }
}

fn alt(c: char) -> KeyEvent {
    KeyEvent { code: KeyCode::Char(c), ctrl: false, alt: true }
}

fn plain(c: char) -> KeyEvent {
    key(KeyCode::Char(c))
}

fn type_str(e: &mut Editor, s: &str) {
    for c in s.chars() {
        assert_eq!(dispatch_key(e, plain(c), H), Effect::Nothing);
    }
}

fn line_string(e: &Editor, row: usize) -> String {
    chars_to_string(&e.buf[row])
}

fn message_string(e: &Editor) -> Option<String> {
    e.message.as_ref().map(chars_to_string)
}

#[test]
fn plain_characters_insert() {
    let mut e = Editor::new();
    type_str(&mut e, "hi there");
    assert_eq!(line_string(&e, 0), "hi there");
    assert_eq!(e.cur_x, 8);
}

#[test]
fn enter_splits_and_backspace_merges() {
    let mut e = Editor::new();
    type_str(&mut e, "abcd");
    dispatch_key(&mut e, ctrl('a'), H);
    assert_eq!(e.cur_x, 0);
    dispatch_key(&mut e, key(KeyCode::Right), H);
    dispatch_key(&mut e, key(KeyCode::Right), H);
    dispatch_key(&mut e, key(KeyCode::Enter), H);
    assert_eq!(e.buf.len(), 2);
    assert_eq!(line_string(&e, 0), "ab");
    assert_eq!(line_string(&e, 1), "cd");
    assert_eq!((e.cur_y, e.cur_x), (1, 0));
    dispatch_key(&mut e, key(KeyCode::Backspace), H);
    assert_eq!(e.buf.len(), 1);
    assert_eq!(line_string(&e, 0), "abcd");
    assert_eq!((e.cur_y, e.cur_x), (0, 2));
}

#[test]
fn control_chords_move_and_edit() {
    let mut e = Editor::new();
    type_str(&mut e, "hello world");
    dispatch_key(&mut e, ctrl('a'), H);
    assert_eq!(e.cur_x, 0);
    dispatch_key(&mut e, ctrl('e'), H);
    assert_eq!(e.cur_x, 11);
    dispatch_key(&mut e, ctrl('a'), H);
    dispatch_key(&mut e, ctrl('d'), H);
    assert_eq!(line_string(&e, 0), "ello world");
    dispatch_key(&mut e, key(KeyCode::Right), H);
    dispatch_key(&mut e, ctrl('h'), H);
    assert_eq!(line_string(&e, 0), "llo world");
    dispatch_key(&mut e, ctrl('k'), H);
    assert_eq!(line_string(&e, 0), "");
}

#[test]
fn alt_d_deletes_next_word() {
    let mut e = Editor::new();
    type_str(&mut e, "hello   world");
    dispatch_key(&mut e, ctrl('a'), H);
    dispatch_key(&mut e, alt('d'), H);
    assert_eq!(line_string(&e, 0), "world");
}

#[test]
fn control_takes_precedence_over_control_alt() {
    // Control-Alt-h matches the Control-h chord first, so it deletes one
    // character, not one word.
    let mut e = Editor::new();
    type_str(&mut e, "ab cd");
    let both = KeyEvent { code: KeyCode::Char('h'), ctrl: true, alt: true };
    dispatch_key(&mut e, both, H);
    assert_eq!(line_string(&e, 0), "ab c");
}

#[test]
fn prefix_then_unbound_char_inserts_nothing() {
    let mut e = Editor::new();
    type_str(&mut e, "keep");
    dispatch_key(&mut e, ctrl('x'), H);
    assert_eq!(e.cmd, Command::CtrlX);
    let r = dispatch_key(&mut e, plain('q'), H);
    assert_eq!(r, Effect::Nothing);
    assert_eq!(line_string(&e, 0), "keep");
    assert_eq!(e.cmd, Command::Idle);
    assert_eq!(message_string(&e).as_deref(), Some("(Key not bound)"));
}

#[test]
fn prefix_then_bound_char_runs_chord_without_insert() {
    let mut e = Editor::new();
    type_str(&mut e, "keep");
    dispatch_key(&mut e, ctrl('x'), H);
    let r = dispatch_key(&mut e, plain('w'), H);
    assert_eq!(r, Effect::Nothing);
    assert_eq!(line_string(&e, 0), "keep");
    assert_eq!(e.mode, EditorMode::SaveFile);
    assert_eq!(e.cmd, Command::Idle);
}

#[test]
fn prefix_is_consumed_by_any_next_key() {
    let mut e = Editor::new();
    dispatch_key(&mut e, ctrl('x'), H);
    assert_eq!(e.cmd, Command::CtrlX);
    dispatch_key(&mut e, key(KeyCode::Left), H);
    assert_eq!(e.cmd, Command::Idle);
    // a 'd' now inserts instead of saving
    dispatch_key(&mut e, plain('d'), H);
    assert_eq!(line_string(&e, 0), "d");
}

#[test]
fn chord_save_with_filename_requests_save() {
    let mut e = Editor::new_with_filename(String::from("a.txt"));
    type_str(&mut e, "data");
    dispatch_key(&mut e, ctrl('x'), H);
    let r = dispatch_key(&mut e, plain('d'), H);
    assert_eq!(r, Effect::Save(SaveKind::Confirm));
    assert_eq!(e.cmd, Command::Idle);
    assert_eq!(e.mode, EditorMode::Normal);
}

#[test]
fn chord_save_without_filename_enters_prompt() {
    let mut e = Editor::new();
    dispatch_key(&mut e, ctrl('x'), H);
    let r = dispatch_key(&mut e, plain('d'), H);
    assert_eq!(r, Effect::Nothing);
    assert_eq!(e.mode, EditorMode::SaveFile);
}

#[test]
fn chord_quit_unmodified_exits() {
    let mut e = Editor::new();
    dispatch_key(&mut e, ctrl('x'), H);
    let r = dispatch_key(&mut e, plain('c'), H);
    assert_eq!(r, Effect::Exit);
}

#[test]
fn chord_quit_modified_asks_first() {
    let mut e = Editor::new();
    type_str(&mut e, "unsaved");
    dispatch_key(&mut e, ctrl('x'), H);
    let r = dispatch_key(&mut e, plain('c'), H);
    assert_eq!(r, Effect::Nothing);
    assert_eq!(e.mode, EditorMode::PromptQuit);
    // 'n' keeps the session and the buffer
    let r = dispatch_key(&mut e, plain('n'), H);
    assert_eq!(r, Effect::Nothing);
    assert_eq!(e.mode, EditorMode::Normal);
    assert_eq!(line_string(&e, 0), "unsaved");
    // back to the prompt, 'y' exits
    dispatch_key(&mut e, ctrl('x'), H);
    dispatch_key(&mut e, plain('c'), H);
    let r = dispatch_key(&mut e, plain('y'), H);
    assert_eq!(r, Effect::Exit);
}

#[test]
fn quit_prompt_esc_returns_to_normal() {
    let mut e = Editor::new();
    type_str(&mut e, "x");
    dispatch_key(&mut e, ctrl('x'), H);
    dispatch_key(&mut e, plain('c'), H);
    let r = dispatch_key(&mut e, key(KeyCode::Esc), H);
    assert_eq!(r, Effect::Nothing);
    assert_eq!(e.mode, EditorMode::Normal);
}

#[test]
fn quick_exit_chord_requests_save() {
    let mut e = Editor::new();
    let r = dispatch_key(&mut e, alt('z'), H);
    assert_eq!(r, Effect::Save(SaveKind::QuickExit));
}

#[test]
fn reserved_search_chord_does_nothing() {
    let mut e = Editor::new();
    dispatch_key(&mut e, ctrl('x'), H);
    let r = dispatch_key(&mut e, plain('s'), H);
    assert_eq!(r, Effect::Nothing);
    assert_eq!(e.mode, EditorMode::Normal);
    assert_eq!(line_string(&e, 0), "");
    assert_eq!(e.cmd, Command::Idle);
}

#[test]
fn save_prompt_edits_filename() {
    let mut e = Editor::new();
    dispatch_key(&mut e, ctrl('x'), H);
    dispatch_key(&mut e, plain('w'), H);
    assert_eq!(e.mode, EditorMode::SaveFile);
    for c in "out.txt".chars() {
        dispatch_key(&mut e, plain(c), H);
    }
    assert_eq!(chars_to_string(&e.filename), "out.txt");
    dispatch_key(&mut e, key(KeyCode::Backspace), H);
    assert_eq!(chars_to_string(&e.filename), "out.tx");
    // Enter with a filename requests the prompt save and returns to Normal
    let r = dispatch_key(&mut e, key(KeyCode::Enter), H);
    assert_eq!(r, Effect::Save(SaveKind::Prompt));
    assert_eq!(e.mode, EditorMode::Normal);
}

#[test]
fn save_prompt_enter_with_empty_filename_waits() {
    let mut e = Editor::new();
    dispatch_key(&mut e, ctrl('x'), H);
    dispatch_key(&mut e, plain('w'), H);
    let r = dispatch_key(&mut e, key(KeyCode::Enter), H);
    assert_eq!(r, Effect::Nothing);
    assert_eq!(e.mode, EditorMode::SaveFile);
}

#[test]
fn save_prompt_esc_clears_and_returns() {
    let mut e = Editor::new();
    dispatch_key(&mut e, ctrl('x'), H);
    dispatch_key(&mut e, plain('w'), H);
    for c in "tmp".chars() {
        dispatch_key(&mut e, plain(c), H);
    }
    let r = dispatch_key(&mut e, key(KeyCode::Esc), H);
    assert_eq!(r, Effect::Nothing);
    assert_eq!(e.mode, EditorMode::Normal);
    assert_eq!(chars_to_string(&e.filename), "");
}

#[test]
fn message_is_one_shot_cleared_on_next_key() {
    let mut e = Editor::new();
    dispatch_key(&mut e, ctrl('x'), H);
    dispatch_key(&mut e, plain('q'), H);
    assert!(e.message.is_some());
    dispatch_key(&mut e, plain('a'), H);
    assert!(e.message.is_none());
    assert_eq!(line_string(&e, 0), "a");
}

#[test]
fn ctrl_pages_and_lines_move_cursor() {
    let mut e = Editor::new();
    for _ in 0..40 {
        dispatch_key(&mut e, key(KeyCode::Enter), H);
    }
    assert_eq!(e.cur_y, 40);
    dispatch_key(&mut e, ctrl('p'), H);
    assert_eq!(e.cur_y, 39);
    dispatch_key(&mut e, ctrl('n'), H);
    assert_eq!(e.cur_y, 40);
    // a 24-row terminal pages by 22 lines
    dispatch_key(&mut e, ctrl('z'), H);
    assert_eq!(e.cur_y, 18);
    dispatch_key(&mut e, ctrl('v'), H);
    assert_eq!(e.cur_y, 40);
    dispatch_key(&mut e, key(KeyCode::Up), H);
    assert_eq!(e.cur_y, 39);
    dispatch_key(&mut e, key(KeyCode::Down), H);
    assert_eq!(e.cur_y, 40);
}

#[test]
fn quick_exit_failure_keeps_session() {
    let mut e = Editor::new();
    let stay = e.quick_exit(Err(String::from("disk full")));
    assert!(!stay);
    assert_eq!(e.mode, EditorMode::Normal);
    assert_eq!(
        message_string(&e).as_deref(),
        Some("Error saving file, cannot exit: disk full")
    );
    let go = e.quick_exit(Ok(3));
    assert!(go);
}

#[test]
fn finish_save_resets_baseline_and_reports() {
    let mut e = Editor::new_with_filename(String::from("a.txt"));
    type_str(&mut e, "ab");
    dispatch_key(&mut e, key(KeyCode::Enter), H);
    assert!(e.modified);
    assert!(e.save_file());
    e.finish_save(Ok(2));
    assert!(!e.modified);
    assert_eq!(message_string(&e).as_deref(), Some("(Wrote 2 lines)"));
    // edits after the save measure against the new baseline
    type_str(&mut e, "x");
    assert!(e.modified);
}

#[test]
fn finish_prompt_save_reports_singular_and_plural() {
    let mut e = Editor::new();
    e.finish_prompt_save(Ok(1));
    assert_eq!(message_string(&e).as_deref(), Some("(Wrote 1 line)"));
    e.finish_prompt_save(Ok(5));
    assert_eq!(message_string(&e).as_deref(), Some("(Wrote 5 lines)"));
    e.message = None;
    e.finish_prompt_save(Ok(0));
    assert!(e.message.is_none());
    e.finish_prompt_save(Err(String::from("denied")));
    assert_eq!(message_string(&e).as_deref(), Some("Error saving file: denied"));
}
