//! The modal input state machine: a pure mapping from the current mode and
//! one key event to the buffer mutation, the mode transition, and the
//! effect the caller must carry out (nothing, exit, or a save).
//!
//! Key events arrive as plain values: a discriminated code plus the Control
//! and Alt modifier flags. The chord buffer is one event deep: the
//! Control-x prefix, once seen, is consumed by the very next key event
//! whether or not that event completes a bound chord, and it never expires
//! on its own.
//!
//! Saves are I/O and are not performed here: the dispatcher reports which
//! save is due as an [`Effect`], the caller attempts it and hands the
//! outcome back through [`crate::editor::Editor::quick_exit`],
//! [`crate::editor::Editor::finish_save`] or
//! [`crate::editor::Editor::finish_prompt_save`].

use vstd::prelude::*;

use crate::editor::{
    Command, Editor, EditorMode, EditorView, spec_del_next_char, spec_del_next_word,
    spec_del_prev_char, spec_del_prev_word, spec_insert_char, spec_insert_tab, spec_kill_to_eol,
    spec_move_left, spec_move_next_line, spec_move_next_page, spec_move_prev_line,
    spec_move_prev_page, spec_move_right, spec_move_to_line_end, spec_move_to_line_start,
    spec_split_line,
};
use crate::text::str_to_chars;

verus! {

/// The discriminated code of a key event.
#[derive(Clone, Copy, PartialEq, Eq, Structural, Debug)]
pub enum KeyCode {
    Char(char),
    Enter,
    Esc,
    Backspace,
    Tab,
    Left,
    Right,
    Up,
    Down,
    Other,
}

/// One key event: a code plus the active modifiers.
#[derive(Clone, Copy, PartialEq, Eq, Structural, Debug)]
pub struct KeyEvent {
    pub code: KeyCode,
    pub ctrl: bool,
    pub alt: bool,
}

/// Which save the caller must attempt before dispatching further.
#[derive(Clone, Copy, PartialEq, Eq, Structural, Debug)]
pub enum SaveKind {
    /// Save to the current filename, then exit on success
    /// ([`Editor::quick_exit`] completes it).
    QuickExit,
    /// Save to the confirmed filename ([`Editor::finish_save`] completes
    /// it).
    Confirm,
    /// Save to the filename just entered at the prompt
    /// ([`Editor::finish_prompt_save`] completes it).
    Prompt,
}

/// What the caller must do after one dispatch step.
#[derive(Clone, Copy, PartialEq, Eq, Structural, Debug)]
pub enum Effect {
    Nothing,
    Exit,
    Save(SaveKind),
}

/// A control chord: the given character with the Control modifier held
/// (the Alt flag does not matter, so a Control-Alt combination matches its
/// Control chord first).
pub open spec fn is_ctrl(k: KeyEvent, c: char) -> bool {
    k.code == KeyCode::Char(c) && k.ctrl
}

/// An Alt chord: the given character with the Alt modifier held.
pub open spec fn is_alt(k: KeyEvent, c: char) -> bool {
    k.code == KeyCode::Char(c) && k.alt
}

/// Consume the chord prefix: any key event after the prefix resets it.
pub open spec fn consumed(v: EditorView) -> EditorView {
    EditorView { cmd: Command::Idle, ..v }
}

/// The Normal-mode transition for one key event. Resolution order, first
/// match wins: the Control chords, then the Alt chords, then chord
/// completions when the Control-x prefix is pending, then plain input
/// (insert, Tab, Enter, Backspace, arrows). Any event consumes a pending
/// prefix; an unbound character after the prefix is not inserted but
/// produces the one-shot "not bound" message. The pending one-shot message
/// is cleared at entry.
pub open spec fn spec_normal_step(v: EditorView, k: KeyEvent, term_height: int) -> (EditorView,
    Effect) {
    let v0 = EditorView { message: None, ..v };
    if is_ctrl(k, 'x') {
        (EditorView { cmd: Command::CtrlX, ..v0 }, Effect::Nothing)
    } else if is_ctrl(k, 'm') {
        (consumed(v0), Effect::Nothing)
    } else if is_ctrl(k, 'a') {
        (spec_move_to_line_start(consumed(v0)), Effect::Nothing)
    } else if is_ctrl(k, 'e') {
        (spec_move_to_line_end(consumed(v0)), Effect::Nothing)
    } else if is_ctrl(k, 'n') {
        (spec_move_next_line(consumed(v0)), Effect::Nothing)
    } else if is_ctrl(k, 'p') {
        (spec_move_prev_line(consumed(v0)), Effect::Nothing)
    } else if is_ctrl(k, 'z') {
        (spec_move_prev_page(consumed(v0), term_height), Effect::Nothing)
    } else if is_ctrl(k, 'v') {
        (spec_move_next_page(consumed(v0), term_height), Effect::Nothing)
    } else if is_ctrl(k, 'k') {
        (spec_kill_to_eol(consumed(v0)), Effect::Nothing)
    } else if is_ctrl(k, 'h') {
        (spec_del_prev_char(consumed(v0)), Effect::Nothing)
    } else if is_ctrl(k, 'd') {
        (spec_del_next_char(consumed(v0)), Effect::Nothing)
    } else if is_alt(k, 'd') {
        (spec_del_next_word(consumed(v0)), Effect::Nothing)
    } else if is_alt(k, 'h') && k.ctrl {
        (spec_del_prev_word(consumed(v0)), Effect::Nothing)
    } else if is_alt(k, 'z') {
        (consumed(v0), Effect::Save(SaveKind::QuickExit))
    } else {
        match k.code {
            KeyCode::Char(c) => {
                if v.cmd == Command::CtrlX {
                    if c == 'd' {
                        if v.filename_given && v.filename.len() > 0 {
                            (consumed(v0), Effect::Save(SaveKind::Confirm))
                        } else {
                            (
                                EditorView { mode: EditorMode::SaveFile, ..consumed(v0) },
                                Effect::Nothing,
                            )
                        }
                    } else if c == 'c' {
                        if !v.modified {
                            (consumed(v0), Effect::Exit)
                        } else {
                            (
                                EditorView { mode: EditorMode::PromptQuit, ..consumed(v0) },
                                Effect::Nothing,
                            )
                        }
                    } else if c == 'w' {
                        (EditorView { mode: EditorMode::SaveFile, ..consumed(v0) }, Effect::Nothing)
                    } else if c == 's' {
                        (consumed(v0), Effect::Nothing)
                    } else {
                        (
                            EditorView { message: Some("(Key not bound)"@), ..consumed(v0) },
                            Effect::Nothing,
                        )
                    }
                } else {
                    (spec_insert_char(v0, c), Effect::Nothing)
                }
            },
            KeyCode::Tab => (spec_insert_tab(consumed(v0)), Effect::Nothing),
            KeyCode::Enter => (spec_split_line(consumed(v0)), Effect::Nothing),
            KeyCode::Backspace => (spec_del_prev_char(consumed(v0)), Effect::Nothing),
            KeyCode::Left => (spec_move_left(consumed(v0)), Effect::Nothing),
            KeyCode::Right => (spec_move_right(consumed(v0)), Effect::Nothing),
            KeyCode::Up => (spec_move_prev_line(consumed(v0)), Effect::Nothing),
            KeyCode::Down => (spec_move_next_line(consumed(v0)), Effect::Nothing),
            _ => (consumed(v0), Effect::Nothing),
        }
    }
}

/// The filename-prompt transition for one key event: Enter with a
/// non-empty filename requests the save and returns to Normal; Enter with
/// an empty filename waits; Esc clears the pending filename and returns to
/// Normal; Backspace removes the last pending character; any printable
/// character is appended. Modifiers are ignored here.
pub open spec fn spec_save_mode_step(v: EditorView, k: KeyEvent) -> (EditorView, Effect) {
    match k.code {
        KeyCode::Enter => {
            if v.filename.len() == 0 {
                (v, Effect::Nothing)
            } else {
                (EditorView { mode: EditorMode::Normal, ..v }, Effect::Save(SaveKind::Prompt))
            }
        },
        KeyCode::Esc => (
            EditorView { filename: Seq::empty(), mode: EditorMode::Normal, ..v },
            Effect::Nothing,
        ),
        KeyCode::Backspace => (
            EditorView {
                filename: if v.filename.len() > 0 {
                    v.filename.take(v.filename.len() - 1)
                } else {
                    v.filename
                },
                ..v
            },
            Effect::Nothing,
        ),
        KeyCode::Char(c) => (EditorView { filename: v.filename.push(c), ..v }, Effect::Nothing),
        _ => (v, Effect::Nothing),
    }
}

/// The quit-confirmation transition: `y` ends the session, `n` or Esc
/// returns to Normal keeping the buffer, anything else waits.
pub open spec fn spec_prompt_quit_step(v: EditorView, k: KeyEvent) -> (EditorView, Effect) {
    if k.code == KeyCode::Char('y') {
        (v, Effect::Exit)
    } else if k.code == KeyCode::Char('n') || k.code == KeyCode::Esc {
        (EditorView { mode: EditorMode::Normal, ..v }, Effect::Nothing)
    } else {
        (v, Effect::Nothing)
    }
}

/// The full dispatch relation: one key event against the current mode.
pub open spec fn spec_dispatch(v: EditorView, k: KeyEvent, term_height: int) -> (EditorView,
    Effect) {
    match v.mode {
        EditorMode::Normal => spec_normal_step(v, k, term_height),
        EditorMode::SaveFile => spec_save_mode_step(v, k),
        EditorMode::PromptQuit => spec_prompt_quit_step(v, k),
    }
}

/// Runtime test for [`is_ctrl`].
fn key_is_ctrl(k: &KeyEvent, c: char) -> (r: bool)
    ensures
        r == is_ctrl(*k, c),
{
    match k.code {
        KeyCode::Char(x) => x == c && k.ctrl,
        _ => false,
    }
}

/// Runtime test for [`is_alt`].
fn key_is_alt(k: &KeyEvent, c: char) -> (r: bool)
    ensures
        r == is_alt(*k, c),
{
    match k.code {
        KeyCode::Char(x) => x == c && k.alt,
        _ => false,
    }
}

/// Apply one Normal-mode key event: see [`spec_normal_step`].
pub fn check_keys_normal(editor: &mut Editor, key: KeyEvent, term_height: usize) -> (r: Effect)
    requires
        old(editor).wf(),
    ensures
        final(editor).wf(),
        final(editor)@ == spec_normal_step(old(editor)@, key, term_height as int).0,
        r == spec_normal_step(old(editor)@, key, term_height as int).1,
{
    editor.message = None;
    if key_is_ctrl(&key, 'x') {
        editor.cmd = Command::CtrlX;
        Effect::Nothing
    } else if key_is_ctrl(&key, 'm') {
        editor.cmd = Command::Idle;
        Effect::Nothing
    } else if key_is_ctrl(&key, 'a') {
        editor.cmd = Command::Idle;
        editor.move_to_line_start();
        Effect::Nothing
    } else if key_is_ctrl(&key, 'e') {
        editor.cmd = Command::Idle;
        editor.move_to_line_end();
        Effect::Nothing
    } else if key_is_ctrl(&key, 'n') {
        editor.cmd = Command::Idle;
        editor.move_next_line();
        Effect::Nothing
    } else if key_is_ctrl(&key, 'p') {
        editor.cmd = Command::Idle;
        editor.move_prev_line();
        Effect::Nothing
    } else if key_is_ctrl(&key, 'z') {
        editor.cmd = Command::Idle;
        editor.move_prev_page(term_height);
        Effect::Nothing
    } else if key_is_ctrl(&key, 'v') {
        editor.cmd = Command::Idle;
        editor.move_next_page(term_height);
        Effect::Nothing
    } else if key_is_ctrl(&key, 'k') {
        editor.cmd = Command::Idle;
        editor.kill_to_eol();
        Effect::Nothing
    } else if key_is_ctrl(&key, 'h') {
        editor.cmd = Command::Idle;
        editor.del_prev_char();
        Effect::Nothing
    } else if key_is_ctrl(&key, 'd') {
        editor.cmd = Command::Idle;
        editor.del_next_char();
        Effect::Nothing
    } else if key_is_alt(&key, 'd') {
        editor.cmd = Command::Idle;
        editor.del_next_word();
        Effect::Nothing
    } else if key_is_alt(&key, 'h') && key.ctrl {
        editor.cmd = Command::Idle;
        editor.del_prev_word();
        Effect::Nothing
    } else if key_is_alt(&key, 'z') {
        editor.cmd = Command::Idle;
        Effect::Save(SaveKind::QuickExit)
    } else {
        match key.code {
            KeyCode::Char(c) => {
                if editor.cmd == Command::CtrlX {
                    if c == 'd' {
                        if editor.save_file() {
                            Effect::Save(SaveKind::Confirm)
                        } else {
                            Effect::Nothing
                        }
                    } else if c == 'c' {
                        editor.cmd = Command::Idle;
                        if editor.quit() {
                            Effect::Exit
                        } else {
                            Effect::Nothing
                        }
                    } else if c == 'w' {
                        editor.write_buffer();
                        Effect::Nothing
                    } else if c == 's' {
                        editor.cmd = Command::Idle;
                        Effect::Nothing
                    } else {
                        editor.cmd = Command::Idle;
                        editor.message = Some(str_to_chars("(Key not bound)"));
                        Effect::Nothing
                    }
                } else {
                    editor.insert_char(c);
                    Effect::Nothing
                }
            },
            KeyCode::Tab => {
                editor.cmd = Command::Idle;
                editor.insert_tab();
                Effect::Nothing
            },
            KeyCode::Enter => {
                editor.cmd = Command::Idle;
                editor.split_line();
                Effect::Nothing
            },
            KeyCode::Backspace => {
                editor.cmd = Command::Idle;
                editor.del_prev_char();
                Effect::Nothing
            },
            KeyCode::Left => {
                editor.cmd = Command::Idle;
                editor.move_left();
                Effect::Nothing
            },
            KeyCode::Right => {
                editor.cmd = Command::Idle;
                editor.move_right();
                Effect::Nothing
            },
            KeyCode::Up => {
                editor.cmd = Command::Idle;
                editor.move_prev_line();
                Effect::Nothing
            },
            KeyCode::Down => {
                editor.cmd = Command::Idle;
                editor.move_next_line();
                Effect::Nothing
            },
            _ => {
                editor.cmd = Command::Idle;
                Effect::Nothing
            },
        }
    }
}

/// Apply one filename-prompt key event: see [`spec_save_mode_step`].
pub fn check_keys_save(editor: &mut Editor, key: KeyEvent) -> (r: Effect)
    requires
        old(editor).wf(),
    ensures
        final(editor).wf(),
        final(editor)@ == spec_save_mode_step(old(editor)@, key).0,
        r == spec_save_mode_step(old(editor)@, key).1,
{
    match key.code {
        KeyCode::Enter => {
            if editor.filename.len() == 0 {
                Effect::Nothing
            } else {
                editor.mode = EditorMode::Normal;
                Effect::Save(SaveKind::Prompt)
            }
        },
        KeyCode::Esc => {
            editor.filename.clear();
            editor.mode = EditorMode::Normal;
            Effect::Nothing
        },
        KeyCode::Backspace => {
            let _popped = editor.filename.pop();
            Effect::Nothing
        },
        KeyCode::Char(c) => {
            editor.filename.push(c);
            Effect::Nothing
        },
        _ => Effect::Nothing,
    }
}

/// Apply one key event against the current mode: the heart of the input
/// loop. The caller reads one event, converts it to a [`KeyEvent`], calls
/// this, and then carries out the returned [`Effect`].
pub fn dispatch_key(editor: &mut Editor, key: KeyEvent, term_height: usize) -> (r: Effect)
    requires
        old(editor).wf(),
    ensures
        final(editor).wf(),
        final(editor)@ == spec_dispatch(old(editor)@, key, term_height as int).0,
        r == spec_dispatch(old(editor)@, key, term_height as int).1,
{
    match editor.mode {
        EditorMode::Normal => check_keys_normal(editor, key, term_height),
        EditorMode::SaveFile => check_keys_save(editor, key),
        EditorMode::PromptQuit => {
            match key.code {
                KeyCode::Char(c) => {
                    if c == 'y' {
                        Effect::Exit
                    } else if c == 'n' {
                        editor.mode = EditorMode::Normal;
                        Effect::Nothing
                    } else {
                        Effect::Nothing
                    }
                },
                KeyCode::Esc => {
                    editor.mode = EditorMode::Normal;
                    Effect::Nothing
                },
                _ => Effect::Nothing,
            }
        },
    }
}

} // verus!
