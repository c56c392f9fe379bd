//! Live keystroke transcription: classifies raw key events, reassembles
//! UTF-16 code units into characters, gates them on a designated capture
//! window, and decides which viewer connections survive each broadcast.

pub mod common;
pub mod dispatch;
pub mod fanout;
pub mod keycode;
pub mod pipeline;
pub mod utf16;
