//! Supervisor for a small local fleet of validator node processes.
//!
//! The crate holds the decision logic of the supervisor: configuration
//! validation and finalization, the per-node lifecycle state machine, the
//! fleet orchestration order, and the console renderer's row bookkeeping.
//! Process spawning, threads and terminal input live outside the library
//! and drive it through the functions defined here.

pub mod app_args;
pub mod chain_errors;
pub mod config;
pub mod console;
pub mod node;
pub mod node_set;
pub mod strutil;
pub mod update;
