//! The one-shot delayed task.
//!
//! A poll pass of the task is a fixed protocol: read the cancel flag,
//! register the waker and re-read the flag (closing the race with a
//! cancellation that lands between the read and the registration), poll the
//! delay, then poll the work. The protocol is a state machine over plain
//! events; every transition is verified, and the laws of the scheduler are
//! proved over all event traces. The delay awaitable and the caller's work
//! are polled by the surrounding executor glue, which reports their results
//! as events.

use vstd::prelude::*;

use crate::Stage;
use crate::cancel::CancelToken;
use crate::cancel::CancelWaker;
use std::sync::atomic::AtomicBool;
use std::task::Waker;

verus! {

/// One observation made during a poll pass.
#[derive(Clone, Copy, PartialEq, Eq, Structural, Debug)]
pub enum Event {
    /// The executor begins a poll pass.
    Poll,
    /// The cancel flag was read; the payload is the value observed.
    DoneRead(bool),
    /// The delay awaitable was polled; `true` means it has elapsed.
    DelayElapsed(bool),
    /// The work awaitable was polled; `true` means it has finished.
    WorkFinished(bool),
}

/// The state of a one-shot task between observations.
#[derive(Clone, Copy, PartialEq, Eq, Structural, Debug)]
pub enum OneShot {
    /// Suspended between poll passes, waiting on the given stage.
    Idle(Stage),
    /// A poll pass has begun; next: read the cancel flag.
    FirstCheck(Stage),
    /// The flag read false; next: register the waker, then re-read the flag.
    SecondCheck(Stage),
    /// Both checks passed; next: poll the delay.
    PollDelay,
    /// The delay has elapsed; next: poll the work.
    PollWork,
    /// Terminal: a cancellation was observed; the work is abandoned.
    Cancelled,
    /// Terminal: the work ran to completion.
    Completed,
}

/// What the executor glue must do next in a given state.
#[derive(Clone, Copy, PartialEq, Eq, Structural, Debug)]
pub enum Duty {
    /// Report not-ready and wait to be polled again.
    Suspend,
    /// Read the cancel flag.
    ReadFlag,
    /// Register the waker as the waiting consumer, then re-read the flag.
    RegisterThenReadFlag,
    /// Poll the delay awaitable.
    PollDelay,
    /// Poll the work awaitable.
    PollWork,
    /// Report ready: the task is resolved.
    Resolve,
}

/// The transition relation of the one-shot task: spec level.
///
/// An event that does not fit the state moves the machine nowhere.
pub open spec fn one_shot_next(s: OneShot, e: Event) -> OneShot {
    match (s, e) {
        (OneShot::Idle(st), Event::Poll) => OneShot::FirstCheck(st),
        (OneShot::FirstCheck(st), Event::DoneRead(done)) => if done {
            OneShot::Cancelled
        } else {
            OneShot::SecondCheck(st)
        },
        (OneShot::SecondCheck(st), Event::DoneRead(done)) => if done {
            OneShot::Cancelled
        } else if st is Delay {
            OneShot::PollDelay
        } else {
            OneShot::PollWork
        },
        (OneShot::PollDelay, Event::DelayElapsed(ready)) => if ready {
            OneShot::PollWork
        } else {
            OneShot::Idle(Stage::Delay)
        },
        (OneShot::PollWork, Event::WorkFinished(ready)) => if ready {
            OneShot::Completed
        } else {
            OneShot::Idle(Stage::Work)
        },
        _ => s,
    }
}

/// The duty that each state imposes on the executor glue: spec level.
pub open spec fn one_shot_duty(s: OneShot) -> Duty {
    match s {
        OneShot::Idle(_) => Duty::Suspend,
        OneShot::FirstCheck(_) => Duty::ReadFlag,
        OneShot::SecondCheck(_) => Duty::RegisterThenReadFlag,
        OneShot::PollDelay => Duty::PollDelay,
        OneShot::PollWork => Duty::PollWork,
        OneShot::Cancelled => Duty::Resolve,
        OneShot::Completed => Duty::Resolve,
    }
}

/// The machine after consuming a whole trace of events.
pub open spec fn one_shot_run(s: OneShot, es: Seq<Event>) -> OneShot
    decreases es.len(),
{
    if es.len() == 0 {
        s
    } else {
        one_shot_run(one_shot_next(s, es[0]), es.drop_first())
    }
}

/// Whether the work has been started (polled at least once) in this state.
pub open spec fn work_started(s: OneShot) -> bool {
    match s {
        OneShot::Idle(st) => st is Work,
        OneShot::FirstCheck(st) => st is Work,
        OneShot::SecondCheck(st) => st is Work,
        OneShot::PollDelay => false,
        OneShot::PollWork => true,
        OneShot::Cancelled => false,
        OneShot::Completed => true,
    }
}

/// How far the task has progressed: still on the delay, on the work, or
/// resolved. The rank never decreases, so the task passes from the delay to
/// the work at most once: the work is started at most once.
pub open spec fn one_shot_rank(s: OneShot) -> int {
    if s is Cancelled || s is Completed {
        2int
    } else if work_started(s) {
        1int
    } else {
        0int
    }
}

/// The transition relation, executable, verified against the spec.
pub fn one_shot_step(s: OneShot, e: Event) -> (r: OneShot)
    ensures
        r == one_shot_next(s, e),
{
    match (s, e) {
        (OneShot::Idle(st), Event::Poll) => OneShot::FirstCheck(st),
        (OneShot::FirstCheck(st), Event::DoneRead(done)) => if done {
            OneShot::Cancelled
        } else {
            OneShot::SecondCheck(st)
        },
        (OneShot::SecondCheck(st), Event::DoneRead(done)) => if done {
            OneShot::Cancelled
        } else {
            match st {
                Stage::Delay => OneShot::PollDelay,
                Stage::Work => OneShot::PollWork,
            }
        },
        (OneShot::PollDelay, Event::DelayElapsed(ready)) => if ready {
            OneShot::PollWork
        } else {
            OneShot::Idle(Stage::Delay)
        },
        (OneShot::PollWork, Event::WorkFinished(ready)) => if ready {
            OneShot::Completed
        } else {
            OneShot::Idle(Stage::Work)
        },
        _ => s,
    }
}

/// The duty function, executable, verified against the spec.
pub fn one_shot_duty_of(s: OneShot) -> (d: Duty)
    ensures
        d == one_shot_duty(s),
{
    match s {
        OneShot::Idle(_) => Duty::Suspend,
        OneShot::FirstCheck(_) => Duty::ReadFlag,
        OneShot::SecondCheck(_) => Duty::RegisterThenReadFlag,
        OneShot::PollDelay => Duty::PollDelay,
        OneShot::PollWork => Duty::PollWork,
        OneShot::Cancelled => Duty::Resolve,
        OneShot::Completed => Duty::Resolve,
    }
}

/// Law: the two terminal states absorb every trace. Once a one-shot task has
/// resolved — cancelled or completed — no event moves it, so no further poll
/// of the delay or of the work is ever asked for, and in particular a second
/// cancellation changes nothing.
pub proof fn lemma_terminal_is_final(s: OneShot, es: Seq<Event>)
    requires
        s is Cancelled || s is Completed,
    ensures
        one_shot_run(s, es) == s,
    decreases es.len(),
{
    if es.len() > 0 {
        lemma_terminal_is_final(s, es.drop_first());
    }
}

/// Running a concatenated trace equals running the pieces in order.
pub proof fn lemma_run_append(s: OneShot, es: Seq<Event>, more: Seq<Event>)
    ensures
        one_shot_run(s, es + more) == one_shot_run(one_shot_run(s, es), more),
    decreases es.len(),
{
    if es.len() == 0 {
        assert(es + more =~= more);
    } else {
        assert((es + more).drop_first() =~= es.drop_first() + more);
        lemma_run_append(one_shot_next(s, es[0]), es.drop_first(), more);
    }
}

/// Law: progress is one-way. The rank — delay stage, work stage, resolved —
/// never decreases along any trace, so the work stage is entered at most
/// once: a one-shot task starts its work at most once.
pub proof fn lemma_rank_monotone(s: OneShot, es: Seq<Event>)
    ensures
        one_shot_rank(one_shot_run(s, es)) >= one_shot_rank(s),
    decreases es.len(),
{
    if es.len() > 0 {
        lemma_rank_monotone(one_shot_next(s, es[0]), es.drop_first());
    }
}

/// Law: the work needs the delay. From a state whose work is unstarted, a
/// trace in which the delay is never observed to elapse leads only to states
/// whose work is still unstarted — the work is never polled.
pub proof fn lemma_work_needs_delay(s: OneShot, es: Seq<Event>)
    requires
        !work_started(s),
        forall|i: int| 0 <= i < es.len() ==> es[i] != Event::DelayElapsed(true),
    ensures
        !work_started(one_shot_run(s, es)),
    decreases es.len(),
{
    if es.len() > 0 {
        let s1 = one_shot_next(s, es[0]);
        lemma_work_needs_delay(s1, es.drop_first());
    }
}

/// Law: cancelling strictly before the delay elapses keeps the work unrun
/// forever. If a trace that never observes an elapsed delay brings the task
/// to `Cancelled`, then at every point of that trace and of any continuation
/// whatsoever the work is unstarted, and the task stays `Cancelled`.
pub proof fn lemma_cancel_before_delay_blocks_work(s: OneShot, es: Seq<Event>, more: Seq<Event>)
    requires
        !work_started(s),
        forall|i: int| 0 <= i < es.len() ==> es[i] != Event::DelayElapsed(true),
        one_shot_run(s, es) is Cancelled,
    ensures
        one_shot_run(s, es + more) is Cancelled,
        forall|n: int|
            0 <= n <= (es + more).len() ==> !work_started(
                one_shot_run(s, (es + more).take(n)),
            ),
{
    lemma_run_append(s, es, more);
    lemma_terminal_is_final(one_shot_run(s, es), more);
    assert forall|n: int| 0 <= n <= (es + more).len() implies !work_started(
        one_shot_run(s, (es + more).take(n)),
    ) by {
        if n <= es.len() {
            assert((es + more).take(n) =~= es.take(n));
            lemma_work_needs_delay(s, es.take(n));
        } else {
            assert((es + more).take(n) =~= es + more.take(n - es.len()));
            lemma_run_append(s, es, more.take(n - es.len()));
            lemma_terminal_is_final(one_shot_run(s, es), more.take(n - es.len()));
        }
    }
}

/// Law: completion needs the whole protocol. A task whose work is unstarted
/// resolves as `Completed` only on a trace that observes the work finishing,
/// and before that observes the delay elapsing.
pub proof fn lemma_completion_needs_delay_then_work(s: OneShot, es: Seq<Event>)
    requires
        !work_started(s),
        one_shot_run(s, es) is Completed,
    ensures
        exists|j: int|
            0 <= j < es.len() && es[j] == Event::WorkFinished(true) && exists|i: int|
                0 <= i < j && es[i] == Event::DelayElapsed(true),
{
    let j = lemma_completion_consumes_work(s, es);
    if forall|i: int| 0 <= i < j ==> es[i] != Event::DelayElapsed(true) {
        assert(forall|i: int|
            0 <= i < es.take(j).len() ==> es.take(j)[i] != Event::DelayElapsed(true));
        lemma_work_needs_delay(s, es.take(j));
    }
}

/// Reaching `Completed` from any other state consumes a `WorkFinished(true)`
/// event in the `PollWork` state; the returned index is that event's.
proof fn lemma_completion_consumes_work(s: OneShot, es: Seq<Event>) -> (j: int)
    requires
        !(s is Completed),
        one_shot_run(s, es) is Completed,
    ensures
        0 <= j < es.len(),
        es[j] == Event::WorkFinished(true),
        one_shot_run(s, es.take(j)) is PollWork,
    decreases es.len(),
{
    let s1 = one_shot_next(s, es[0]);
    if s1 is Completed {
        assert(es.take(0) =~= Seq::<Event>::empty());
        0
    } else {
        let j1 = lemma_completion_consumes_work(s1, es.drop_first());
        assert(es.drop_first().take(j1) =~= es.take(j1 + 1).drop_first());
        j1 + 1
    }
}

/// Law: every poll pass observes a pending cancellation at its flag checks,
/// whatever the task was doing — even mid-work — and resolves at once.
pub proof fn lemma_check_observes_cancel(s: OneShot)
    requires
        s is FirstCheck || s is SecondCheck,
    ensures
        one_shot_next(s, Event::DoneRead(true)) is Cancelled,
{
}

/// Law: a cancellation is observed no later than the next poll. The `done`
/// flag never falls back to false, so once it is set, the first flag read of
/// the next poll pass reports true and the suspended task resolves.
pub proof fn lemma_next_poll_observes_cancel(st: Stage)
    ensures
        one_shot_run(OneShot::Idle(st), seq![Event::Poll, Event::DoneRead(true)])
            == OneShot::Cancelled,
{
    let es = seq![Event::Poll, Event::DoneRead(true)];
    let tail = es.drop_first();
    assert(tail =~= seq![Event::DoneRead(true)]);
    assert(tail.drop_first() =~= Seq::<Event>::empty());
    assert(one_shot_run(OneShot::Idle(st), es) == one_shot_run(OneShot::FirstCheck(st), tail));
    assert(one_shot_run(OneShot::FirstCheck(st), tail) == one_shot_run(
        OneShot::Cancelled,
        tail.drop_first(),
    ));
}

/// Whether `e` is the kind of observation that the current duty produces.
pub open spec fn one_shot_enabled(s: OneShot, e: Event) -> bool {
    match one_shot_duty(s) {
        Duty::Suspend => e is Poll,
        Duty::ReadFlag => e is DoneRead,
        Duty::RegisterThenReadFlag => e is DoneRead,
        Duty::PollDelay => e is DelayElapsed,
        Duty::PollWork => e is WorkFinished,
        Duty::Resolve => false,
    }
}

/// Law: no step gets stuck. Every observation that the current duty
/// produces moves the machine to a different state, so a poll pass always
/// makes progress; and an observation of any other kind moves it nowhere,
/// so a stray or repeated report cannot corrupt the protocol.
pub proof fn lemma_duty_drives_the_machine(s: OneShot, e: Event)
    ensures
        one_shot_enabled(s, e) ==> one_shot_next(s, e) != s,
        !one_shot_enabled(s, e) ==> one_shot_next(s, e) == s,
{
}

/// A one-shot task: run the work once, after the delay has elapsed, unless
/// cancelled first.
///
/// The struct carries the shared cancel signal, the configured delay (the
/// model of the owned delay awaitable) and the poll state machine. The
/// executor glue drives it: it performs the [`Duty`] of the current state
/// and reports each observation through the methods below, every one of
/// which is a verified transition.
pub struct DelayedTask {
    signal: CancelWaker,
    delay_nanos: u64,
    state: OneShot,
}

impl View for DelayedTask {
    type V = OneShot;

    closed spec fn view(&self) -> OneShot {
        self.state
    }
}

impl DelayedTask {
    /// The shared signal that the task observes.
    pub closed spec fn signal(self) -> CancelWaker {
        self.signal
    }

    /// The configured delay, in nanoseconds.
    pub closed spec fn delay(self) -> u64 {
        self.delay_nanos
    }

    pub(crate) fn new(signal: CancelWaker, delay_nanos: u64) -> (r: DelayedTask)
        ensures
            r@ == OneShot::Idle(Stage::Delay),
            r.signal() == signal,
            r.delay() == delay_nanos,
    {
        DelayedTask { signal, delay_nanos, state: OneShot::Idle(Stage::Delay) }
    }

    /// The configured delay, in nanoseconds.
    pub fn delay_nanos(&self) -> (n: u64)
        ensures
            n == self.delay(),
    {
        self.delay_nanos
    }

    /// What the executor glue must do next.
    pub fn duty(&self) -> (d: Duty)
        ensures
            d == one_shot_duty(self@),
    {
        one_shot_duty_of(self.state)
    }

    /// Whether the task has resolved, by cancellation or by completion.
    pub fn resolved(&self) -> (r: bool)
        ensures
            r == (self@ is Cancelled || self@ is Completed),
    {
        match self.state {
            OneShot::Cancelled => true,
            OneShot::Completed => true,
            _ => false,
        }
    }

    /// The executor begins a poll pass.
    pub fn begin_poll(&mut self)
        ensures
            final(self)@ == one_shot_next(old(self)@, Event::Poll),
            final(self).signal() == old(self).signal(),
            final(self).delay() == old(self).delay(),
    {
        self.state = one_shot_step(self.state, Event::Poll);
    }

    /// Reads the cancel flag and feeds the observation to the machine. The
    /// flag is shared, so the value read is whatever this moment shows; the
    /// transition is exact for either value.
    pub fn observe_cancel(&mut self) -> (done: bool)
        ensures
            final(self)@ == one_shot_next(old(self)@, Event::DoneRead(done)),
            final(self).signal() == old(self).signal(),
            final(self).delay() == old(self).delay(),
    {
        let done = self.signal.is_done();
        self.state = one_shot_step(self.state, Event::DoneRead(done));
        done
    }

    /// Registers `w` as the waiting consumer, then re-reads the cancel flag
    /// — the double check that closes the race with a cancellation landing
    /// between the first read and the registration — and feeds the
    /// observation to the machine.
    pub fn register_and_observe(&mut self, w: &Waker) -> (done: bool)
        ensures
            final(self)@ == one_shot_next(old(self)@, Event::DoneRead(done)),
            final(self).signal() == old(self).signal(),
            final(self).delay() == old(self).delay(),
    {
        self.signal.register_waiter(w);
        let done = self.signal.is_done();
        self.state = one_shot_step(self.state, Event::DoneRead(done));
        done
    }

    /// The delay awaitable was polled; `elapsed` is what it reported.
    pub fn note_delay(&mut self, elapsed: bool)
        ensures
            final(self)@ == one_shot_next(old(self)@, Event::DelayElapsed(elapsed)),
            final(self).signal() == old(self).signal(),
            final(self).delay() == old(self).delay(),
    {
        self.state = one_shot_step(self.state, Event::DelayElapsed(elapsed));
    }

    /// The work awaitable was polled; `finished` is what it reported.
    pub fn note_work(&mut self, finished: bool)
        ensures
            final(self)@ == one_shot_next(old(self)@, Event::WorkFinished(finished)),
            final(self).signal() == old(self).signal(),
            final(self).delay() == old(self).delay(),
    {
        self.state = one_shot_step(self.state, Event::WorkFinished(finished));
    }
}

/// Schedules a one-shot task: builds a fresh shared cancel signal and
/// returns the cancel token together with the task, which starts suspended
/// with its work unstarted, its delay not yet elapsed, and the same signal
/// as the token.
pub fn once(delay_nanos: u64) -> (r: (CancelToken, DelayedTask))
    ensures
        r.1@ == OneShot::Idle(Stage::Delay),
        r.0.signal() == r.1.signal(),
        r.1.delay() == delay_nanos,
{
    let waker = CancelWaker::new(AtomicBool::new(false));
    let token = CancelToken::new(waker.share());
    (token, DelayedTask::new(waker, delay_nanos))
}

} // verus!
