//! A bridge between a remote controller and a terminal editor.
//!
//! The controller speaks length-framed JSON; the bridge seeds a working file,
//! runs an editor on it and reports every change of the file back. This crate
//! holds the decisions of that bridge as functions on plain values: the wire
//! format, the content conversion, the hand-off of the editor's process id,
//! the update publisher and the session's state machine. Reading, writing and
//! spawning are left to the program around it.

pub mod command;
pub mod content;
pub mod editor;
pub mod frame;
pub mod message;
pub mod publisher;
pub mod session;
