//! Cancellable scheduling primitives: a one-shot delayed task and a
//! recurring task, each driven by an external executor and cancellable
//! through a shared signal.
//!
//! The poll protocol of each task is a verified state machine: every
//! decision a poll makes (observe the cancel flag, register the waker,
//! poll the delay, poll the work) is a transition with a proved contract,
//! and the safety laws of the scheduler (cancellation is terminal, work
//! needs an elapsed delay, cycles cannot outnumber elapsed delays) are
//! proved over all event traces.

use vstd::prelude::*;

pub mod cancel;
pub mod every;
pub mod once;

pub use cancel::CancelToken;
pub use cancel::CancelWaker;
pub use every::Recurring;
pub use every::ScheduledTask;
pub use every::every;
pub use once::DelayedTask;
pub use once::Duty;
pub use once::Event;
pub use once::OneShot;
pub use once::once;

verus! {

/// Which sub-awaitable a one-shot task is currently working through.
#[derive(Clone, Copy, PartialEq, Eq, Structural, Debug)]
pub enum Stage {
    /// The delay has not elapsed yet.
    Delay,
    /// The delay elapsed; the work is running.
    Work,
}

} // verus!
