//! A line-oriented remote shell session engine.
//!
//! A session emulates a running shell by starting one short-lived process
//! per command and by tracking the chosen interpreter and the current
//! directory itself. This crate holds the decisions of such a session:
//! which interpreter a name selects, how a line is read as a command, what
//! process has to be started, and how its raw output becomes plain text.
//! Starting processes, touching the file system and moving frames over a
//! connection are left to the caller, who reports what happened as events.

pub mod chars;
pub mod shell;
pub mod decode;
pub mod strip;
pub mod process;
pub mod command;
pub mod path;
pub mod service;
pub mod session;
