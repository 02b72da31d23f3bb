//! Turn tracking for Codex terminals.
//!
//! Codex writes a transcript of its session, one JSON record per line. This crate decides what
//! that transcript says about the agent's turns and what those turns mean for the terminal that
//! runs the agent. Files, clocks, channels and JSON stay outside: everything here works on plain
//! values and is verified.
#![allow(unused_imports)]

pub mod framing;
pub mod history;
pub mod observer;
pub mod observer_promises;
pub mod path;
pub mod reader;
pub mod reader_laws;
pub mod reader_promises;
pub mod registration;
pub mod terminal;
pub mod terminal_laws;
pub mod terminal_promises;
pub mod text;
pub mod time;
pub mod turn;
pub mod value_laws;
