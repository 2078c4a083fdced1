use futures::task::noop_waker;
use futures_timer::Delay;
use see_you_later::CancelToken;
use see_you_later::DelayedTask;
use see_you_later::Duty;
use see_you_later::ScheduledTask;
use see_you_later::every;
use see_you_later::once;
use std::cell::Cell;
use std::future::Future;
use std::pin::Pin;
use std::task::Context;
use std::task::Poll;
use std::time::Duration;
use std::time::Instant;

/// Drives a one-shot task to resolution against a real timer. The work is a
/// closure that finishes on its first poll, as in the scheduling scenarios
/// below. Polling is busy: a suspended task is immediately polled again.
fn drive_once<W: FnMut()>(task: &mut DelayedTask, mut work: W) {
    let waker = noop_waker();
    let mut cx = Context::from_waker(&waker);
    let mut delay = Delay::new(Duration::from_nanos(task.delay_nanos()));
    loop {
        match task.duty() {
            Duty::Suspend => task.begin_poll(),
            Duty::ReadFlag => {
                task.observe_cancel();
            }
            Duty::RegisterThenReadFlag => {
                task.register_and_observe(&waker);
            }
            Duty::PollDelay => {
                let elapsed = matches!(Pin::new(&mut delay).poll(&mut cx), Poll::Ready(()));
                task.note_delay(elapsed);
            }
            Duty::PollWork => {
                work();
                task.note_work(true);
            }
            Duty::Resolve => return,
        }
    }
}

/// Drives a recurring task to resolution against a real timer, asking
/// `should_cancel` before every step whether to fire the token now. Each
/// finished cycle gets a fresh delay of the configured interval and the
/// work closure is run freshly per cycle.
fn drive_every<W: FnMut(), C: FnMut() -> bool>(
    task: &mut ScheduledTask,
    mut work: W,
    mut should_cancel: C,
    token: &CancelToken,
) {
    let waker = noop_waker();
    let mut cx = Context::from_waker(&waker);
    let interval = Duration::from_nanos(task.interval_nanos());
    let mut delay = Delay::new(interval);
    loop {
        if should_cancel() {
            token.cancel();
        }
        match task.duty() {
            Duty::Suspend => task.begin_poll(),
            Duty::ReadFlag => {
                task.observe_cancel();
            }
            Duty::RegisterThenReadFlag => {
                task.register_and_observe(&waker);
            }
            Duty::PollDelay => {
                let elapsed = matches!(Pin::new(&mut delay).poll(&mut cx), Poll::Ready(()));
                task.note_delay(elapsed);
            }
            Duty::PollWork => {
                work();
                if task.note_work(true) {
                    delay = Delay::new(interval);
                }
            }
            Duty::Resolve => return,
        }
    }
}

#[test]
fn once_test() {
    let counter = Cell::new(0i32);
    let started = Instant::now();
    let (_token, mut task) = once(1_000_000_000);
    drive_once(&mut task, || counter.set(counter.get() + 1));
    assert_eq!(1, counter.get());
    assert!(started.elapsed() >= Duration::from_secs(1));
    assert!(task.resolved());
}

#[test]
fn once_cancel_test() {
    let counter = Cell::new(0i32);
    let (token, mut task) = once(1_000_000_000);
    token.cancel();
    drive_once(&mut task, || counter.set(counter.get() + 1));
    assert_eq!(0, counter.get());
    assert!(task.resolved());
}

#[test]
fn every_test() {
    let counter = Cell::new(0i32);
    let started = Instant::now();
    let (token, mut task) = every(1_000_000_000);
    drive_every(
        &mut task,
        || counter.set(counter.get() + 1),
        || started.elapsed() >= Duration::from_secs(3),
        &token,
    );
    assert!(counter.get() >= 2);
}

#[test]
fn every_cancel_after_tenth() {
    let counter = Cell::new(0i32);
    let cancelled_at: Cell<Option<Instant>> = Cell::new(None);
    let started = Instant::now();
    let (token, mut task) = every(100_000_000);
    drive_every(
        &mut task,
        || counter.set(counter.get() + 1),
        || {
            if counter.get() >= 10 && cancelled_at.get().is_none() {
                cancelled_at.set(Some(Instant::now()));
                true
            } else {
                false
            }
        },
        &token,
    );
    // at least ten runs of the work were observed before the cancellation
    assert!(counter.get() >= 10);
    // each of the ten cycles waited out its own 100 ms interval
    assert!(started.elapsed() >= Duration::from_millis(1000));
    // the task resolved well within one further interval after the cancel
    assert!(cancelled_at.get().unwrap().elapsed() <= Duration::from_millis(100));
    assert!(task.resolved());
}

#[test]
fn once_zero_delay() {
    let counter = Cell::new(0i32);
    let (_token, mut task) = once(0);
    drive_once(&mut task, || counter.set(counter.get() + 1));
    assert_eq!(1, counter.get());
}

#[test]
fn every_zero_interval() {
    let counter = Cell::new(0i32);
    let (token, mut task) = every(0);
    drive_every(
        &mut task,
        || counter.set(counter.get() + 1),
        || counter.get() >= 3,
        &token,
    );
    assert!(counter.get() >= 3);
    assert!(task.resolved());
}

#[test]
fn largest_delay_is_kept() {
    let (_token, task) = once(u64::MAX);
    assert_eq!(u64::MAX, task.delay_nanos());
    let (_token, task) = every(u64::MAX);
    assert_eq!(u64::MAX, task.interval_nanos());
}

#[test]
fn cancel_twice_is_idempotent() {
    // one-shot: two cancels before any poll leave the work unrun, as one does
    let counter = Cell::new(0i32);
    let (token, mut task) = once(1_000_000);
    token.cancel();
    token.cancel();
    drive_once(&mut task, || counter.set(counter.get() + 1));
    assert_eq!(0, counter.get());

    // recurring: a second cancel after resolution adds no further cycle
    let counter = Cell::new(0i32);
    let (token, mut task) = every(1_000_000);
    drive_every(
        &mut task,
        || counter.set(counter.get() + 1),
        || counter.get() >= 2,
        &token,
    );
    let after_first_cancel = counter.get();
    token.cancel();
    task.begin_poll();
    assert!(task.resolved());
    assert_eq!(after_first_cancel, counter.get());
}

#[test]
fn cancel_is_visible_across_handles() {
    // the token's store must reach the task through the shared signal
    let (token, mut task) = once(1_000_000_000);
    task.begin_poll();
    assert!(!task.observe_cancel());
    token.cancel();
    // the pass goes on: the second check observes the cancellation
    let waker = noop_waker();
    assert!(task.register_and_observe(&waker));
    assert!(task.resolved());
}

#[test]
fn one_shot_protocol_exact_steps() {
    let waker = noop_waker();
    let (_token, mut task) = once(5);
    assert_eq!(Duty::Suspend, task.duty());
    task.begin_poll();
    assert_eq!(Duty::ReadFlag, task.duty());
    assert!(!task.observe_cancel());
    assert_eq!(Duty::RegisterThenReadFlag, task.duty());
    assert!(!task.register_and_observe(&waker));
    assert_eq!(Duty::PollDelay, task.duty());
    task.note_delay(false);
    assert_eq!(Duty::Suspend, task.duty());
    task.begin_poll();
    assert!(!task.observe_cancel());
    assert!(!task.register_and_observe(&waker));
    assert_eq!(Duty::PollDelay, task.duty());
    task.note_delay(true);
    assert_eq!(Duty::PollWork, task.duty());
    task.note_work(false);
    assert_eq!(Duty::Suspend, task.duty());
    task.begin_poll();
    assert!(!task.observe_cancel());
    assert!(!task.register_and_observe(&waker));
    assert_eq!(Duty::PollWork, task.duty());
    task.note_work(true);
    assert_eq!(Duty::Resolve, task.duty());
    assert!(task.resolved());
}

#[test]
fn cancel_during_work_lets_it_finish() {
    // the race of a cancellation against started work: the work's own poll
    // comes first and completes, and the task resolves
    let waker = noop_waker();
    let (token, mut task) = once(5);
    task.begin_poll();
    assert!(!task.observe_cancel());
    assert!(!task.register_and_observe(&waker));
    task.note_delay(true);
    assert_eq!(Duty::PollWork, task.duty());
    token.cancel();
    task.note_work(true);
    assert!(task.resolved());
}

#[test]
fn cancel_during_work_abandons_pending_work() {
    // the other arm of the race: the started work suspends, and the next
    // pass observes the cancellation and abandons it
    let waker = noop_waker();
    let (token, mut task) = once(5);
    task.begin_poll();
    assert!(!task.observe_cancel());
    assert!(!task.register_and_observe(&waker));
    task.note_delay(true);
    assert_eq!(Duty::PollWork, task.duty());
    token.cancel();
    task.note_work(false);
    assert_eq!(Duty::Suspend, task.duty());
    task.begin_poll();
    assert!(task.observe_cancel());
    assert!(task.resolved());
}

#[test]
fn recurring_rebuild_is_reported_exactly_at_cycle_end() {
    let waker = noop_waker();
    let (_token, mut task) = every(5);
    task.begin_poll();
    assert!(!task.observe_cancel());
    assert!(!task.register_and_observe(&waker));
    // the embedded cycle runs its own double check
    assert_eq!(Duty::ReadFlag, task.duty());
    assert!(!task.observe_cancel());
    assert!(!task.register_and_observe(&waker));
    assert_eq!(Duty::PollDelay, task.duty());
    task.note_delay(true);
    assert_eq!(Duty::PollWork, task.duty());
    assert!(!task.note_work(false));
    task.begin_poll();
    assert!(!task.observe_cancel());
    assert!(!task.register_and_observe(&waker));
    // the resumed cycle repeats its own double check before its work
    assert_eq!(Duty::ReadFlag, task.duty());
    assert!(!task.observe_cancel());
    assert!(!task.register_and_observe(&waker));
    assert_eq!(Duty::PollWork, task.duty());
    assert!(task.note_work(true));
    // straight into the next cycle, without suspending
    assert_eq!(Duty::ReadFlag, task.duty());
}
