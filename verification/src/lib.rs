//! `acadcheck` grades program submissions against labelled test cases.
//!
//! The crate holds the rules of a checker: how the command of a language
//! processor is put together, how the outcome of every test is decided from
//! what a run produced, and how a sandboxed run is driven from the creation
//! of its environment to its removal. Whatever touches the operating system
//! is done by the caller, who reports what happened in plain values.

pub mod acadchecker;
pub mod checker;
pub mod error;
pub mod language;
pub mod maps;
pub mod pattern;
pub mod prechecker;
pub mod sandbox;
pub mod solution;
pub mod supervisor;
pub mod text;
pub mod upload;
pub mod util;
