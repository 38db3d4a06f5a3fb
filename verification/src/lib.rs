//! Coordinated graceful shutdown of a supervised listening service.
//!
//! The crate models a supervisor that owns two background loops: a worker
//! that repeatedly performs an action and answers control signals, and a
//! waiter that blocks until an expected signal arrives and then runs a
//! one-shot teardown. All coordination happens over bounded, ordered
//! control queues carrying [`signal::ThreadMsg`] values.

pub mod channel;
pub mod console;
pub mod listener;
pub mod signal;
pub mod supervisor;
pub mod waiter;
pub mod worker;

use vstd::prelude::*;

verus! {

/// Poll interval of the worker loop, in milliseconds.
pub const MSG_POLL_DELAY_MS: u64 = 100;

/// Poll interval of the waiter loop, in milliseconds.
pub const MSG_POLL_DELAY_LONG_MS: u64 = 1000;

/// Grace period granted to in-flight work when the listener is stopped,
/// in seconds.
pub const SHUTDOWN_GRACE_SECS: u64 = 60;

} // verus!
