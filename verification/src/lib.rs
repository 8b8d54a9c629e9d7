//! Core of a sandboxed code-execution service: the slot pool, the language
//! registry, the compiler and sandbox drivers and the execution pipeline.
//! Every decision the service takes is a verified function from plain values
//! to plain values; spawning processes and touching the file system is left
//! to the caller.

pub mod api;
pub mod box_pool;
pub mod compiler;
pub mod config;
pub mod error;
pub mod execution;
pub mod language;
pub mod process;
pub mod sandbox;
pub mod text;
pub mod use_cases;
