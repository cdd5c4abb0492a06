//! Core of a modal, single-buffer terminal text editor.
//!
//! The crate owns the text-buffer mutation model (cursor-addressed
//! insert/delete/split/merge operations with word-boundary semantics), the
//! modal input state machine (mode transitions, two-key chord prefixes,
//! prompt sub-modes), and the incremental renderer (viewport scrolling plus
//! frame diffing). Terminal I/O and file I/O stay outside: callers feed key
//! events and terminal dimensions in as plain values and carry the computed
//! frame out to the screen.

pub mod buffer;
pub mod editor;
pub mod input;
pub mod render;
pub mod statusline;
pub mod text;
