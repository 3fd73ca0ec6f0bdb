//! A script worker: callers queue scripts for an embedded scripting engine that
//! lives on one dedicated thread, and ask for an orderly shutdown.
//!
//! The engine itself, the thread and the blocking are left to the embedding
//! program. This crate holds what is decided around them: the command queue,
//! the worker's state machine, the session that ties both together, and the
//! text handling of the host functions.

pub mod error;
pub mod host;
pub mod laws;
pub mod message;
pub mod queue;
pub mod script;
pub mod value;
pub mod worker;
