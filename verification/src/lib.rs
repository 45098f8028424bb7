//! Editing core of a modal terminal text editor.
//!
//! The crate holds what the editor knows and decides; it reads no key, opens
//! no file and draws nothing. A front end does those and hands over plain
//! values.
//!
//! - [`gap_line`]: the gap buffer that stores the characters of one line.
//! - [`buffer`]: lines, buffers made of lines, and the registry of open
//!   buffers with its current buffer.
//! - [`mode`]: the editor's modes, the commands, and the keymaps that bind
//!   input symbols to commands.
//! - [`viewport`]: the arithmetic of cursor and viewport.
//! - [`editor`]: the state of the editor and the steps that input takes it
//!   through.
//! - [`text`]: decimal numbers in display strings.
//!
//! Each type has a mathematical view, and each function says in its contract
//! what it does to that view.

pub mod buffer;
pub mod editor;
pub mod gap_line;
pub mod mode;
pub mod text;
pub mod viewport;
