//! Capability-scoped tracking of long-running tasks.
//!
//! A task is created by a client service, which receives three bearer
//! tokens for it: one to view it, one to abort it and one to update it.
//! Workers report progress and completion, and the task is retired some
//! time after it reached a terminal state.

pub mod authorize;
pub mod client;
pub mod laws;
pub mod lifecycle;
pub mod outcome;
pub mod registry;
pub mod service;
pub mod status;
pub mod task;
pub mod token;
