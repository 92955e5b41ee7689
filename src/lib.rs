//! Lifecycle harness for a background service driven by repeated ticks and
//! stopped by a one-shot termination signal.
//!
//! The decisions of the run loop (when to tick, when to finalize) are a
//! verified state machine; the thread that drives it lives with the caller.
pub mod lifecycle;
pub mod run_loop;
pub mod runner;
pub mod service;
pub mod signal;

pub use run_loop::{Action, LoopModel, RunLoop};
pub use runner::BasicRunner;
pub use service::{Builder, Handle, TickableService};
pub use signal::PollOutcome;
