//! The shared cancellation signal and the caller-facing cancel token.
//!
//! A `CancelWaker` is a reference-counted pair of a one-way `done` flag and
//! a single-slot waker registration. The token sets the flag and wakes the
//! registered consumer; the task futures read the flag and register
//! themselves. Both sides touch the pair only through lock-free operations,
//! so nothing here can block the other side.

use vstd::prelude::*;

use std::sync::Arc;
use std::sync::atomic::AtomicBool;
use std::sync::atomic::Ordering;
use std::task::Waker;
use futures::task::AtomicWaker;

verus! {

#[verifier::external_type_specification]
#[verifier::external_body]
pub struct ExAtomicWaker(AtomicWaker);

#[verifier::external_type_specification]
#[verifier::external_body]
pub struct ExWaker(Waker);

/// Relies on futures::task::AtomicWaker::new: a fresh, empty waker slot.
#[verifier::external_body]
fn new_waker_slot() -> AtomicWaker {
    AtomicWaker::new()
}

/// Relies on futures::task::AtomicWaker::register: stores `w` as the sole
/// registered consumer, replacing any previous registration.
#[verifier::external_body]
fn register_in_slot(slot: &AtomicWaker, w: &Waker) {
    slot.register(w)
}

/// Relies on futures::task::AtomicWaker::wake: wakes the last registered
/// consumer, if any; a no-op when the slot is empty.
#[verifier::external_body]
fn wake_registered(slot: &AtomicWaker) {
    slot.wake()
}

/// Relies on std::sync::atomic::AtomicBool::load: reads the current value
/// of the shared flag. Another handle may store `true` at any moment, so
/// nothing is promised of the value that comes back.
#[verifier::external_body]
fn load_flag(flag: &AtomicBool) -> bool {
    flag.load(Ordering::Relaxed)
}

/// Relies on std::sync::atomic::AtomicBool::store: sets the shared flag to
/// `true`. The flag is never stored `false` anywhere in this crate, so the
/// store is one-way.
#[verifier::external_body]
fn store_flag_true(flag: &AtomicBool) {
    flag.store(true, Ordering::Relaxed)
}

struct CancelInner {
    done: AtomicBool,
    waker: AtomicWaker,
}

/// One handle to the shared cancellation signal: a one-way `done` flag plus
/// a single-slot registration for the waiting consumer.
pub struct CancelWaker {
    inner: Arc<CancelInner>,
}

/// Relies on Arc::clone: the result is a handle to the same allocation as
/// `a`, hence equal to it as a value.
#[verifier::external_body]
fn clone_handle(a: &Arc<CancelInner>) -> (r: Arc<CancelInner>)
    ensures
        r == *a,
{
    a.clone()
}

impl CancelWaker {
    /// Wraps the given flag, together with a fresh empty waker slot, into a
    /// shared signal. The flag is shared from here on: every handle made by
    /// [`CancelWaker::share`] observes the same flag and the same slot.
    pub fn new(done: AtomicBool) -> CancelWaker {
        CancelWaker { inner: Arc::new(CancelInner { done, waker: new_waker_slot() }) }
    }

    /// A second handle to the same signal.
    pub fn share(&self) -> (r: CancelWaker)
        ensures
            r == *self,
    {
        CancelWaker { inner: clone_handle(&self.inner) }
    }

    /// Non-blocking read of the `done` flag. The flag is shared: a handle
    /// held elsewhere may set it at any moment, so the result says only what
    /// this read observed.
    pub fn is_done(&self) -> bool {
        load_flag(&self.inner.done)
    }

    /// Marks the signal done, then wakes the registered consumer, if any.
    /// The flag only ever moves from `false` to `true`, so calling this
    /// again changes nothing except issuing another wake.
    pub fn set_done_and_wake(&self) {
        store_flag_true(&self.inner.done);
        wake_registered(&self.inner.waker);
    }

    /// Stores `w` as the sole waiting consumer, replacing any previous
    /// registration. A caller must re-read the flag after registering: a
    /// cancellation that lands between its last read and this registration
    /// has already issued its wake, which this registration missed.
    pub fn register_waiter(&self, w: &Waker) {
        register_in_slot(&self.inner.waker, w)
    }
}

/// A handle with which the caller cancels a scheduled task from outside.
pub struct CancelToken {
    waker: CancelWaker,
}

impl CancelToken {
    /// The signal this token sets.
    pub closed spec fn signal(self) -> CancelWaker {
        self.waker
    }

    pub(crate) fn new(waker: CancelWaker) -> (r: CancelToken)
        ensures
            r.signal() == waker,
    {
        CancelToken { waker }
    }

    /// Cancels the scheduled task, if it still runs: sets the shared `done`
    /// flag and wakes the task so that its next poll observes the flag.
    /// Idempotent in effect: the flag stays `true` once set, and a repeated
    /// call only issues another wake.
    pub fn cancel(&self) {
        self.waker.set_done_and_wake()
    }
}

} // verus!
