//! Supervision of one external worker process and its bounded log.
//!
//! The library holds the decisions: what is launched, when a start or a stop
//! is a no-op, what each step writes to the log, and which lines the log
//! retains. Spawning, killing and reading the process are left to the caller,
//! who reports their outcome back.

pub mod text;
pub mod clock;
pub mod log_buffer;
pub mod config;
pub mod supervisor;
pub mod rpc;
