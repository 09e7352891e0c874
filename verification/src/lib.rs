//! Decisions behind a borderless, resizable window frame: how a non-client
//! window message is answered, where a cursor position falls on the frame,
//! and what each title-bar control asks of the window.
pub mod message;
pub mod window;
