//! The recurring task.
//!
//! A recurring task drives one one-shot cycle at a time: whenever the
//! embedded cycle completes, the next one is built from a fresh delay of the
//! configured interval and a freshly invoked work instance, without yielding
//! to the executor in between. It has no completed terminal state of its
//! own — the `Recurring` type has no such variant — and stops only when the
//! shared signal reports done. Each poll pass first runs the outer double
//! check of the cancel flag, and every embedded cycle repeats that check, so
//! a cancellation is observed no later than the next flag read.

use vstd::prelude::*;

use crate::Stage;
use crate::cancel::CancelToken;
use crate::cancel::CancelWaker;
use crate::once::Duty;
use crate::once::Event;
use crate::once::OneShot;
use crate::once::lemma_duty_drives_the_machine;
use crate::once::one_shot_duty;
use crate::once::one_shot_duty_of;
use crate::once::one_shot_next;
use crate::once::one_shot_step;
use crate::once::work_started;
use std::sync::atomic::AtomicBool;
use std::task::Waker;

verus! {

/// The state of a recurring task between observations.
#[derive(Clone, Copy, PartialEq, Eq, Structural, Debug)]
pub enum Recurring {
    /// Suspended between poll passes; the embedded cycle is suspended too.
    Idle(OneShot),
    /// A poll pass has begun; next: read the cancel flag.
    FirstCheck(OneShot),
    /// The flag read false; next: register the waker, then re-read the flag.
    SecondCheck(OneShot),
    /// Inside the cycle loop, driving the embedded one-shot cycle.
    Cycle(OneShot),
    /// Terminal: a cancellation was observed.
    Cancelled,
}

/// Whether consuming `e` in state `s` finishes the running cycle, so that
/// the next cycle must be built: a fresh delay of the configured interval
/// and a freshly invoked work instance.
pub open spec fn is_cycle_end(s: Recurring, e: Event) -> bool {
    s matches Recurring::Cycle(t) && t is PollWork && e == Event::WorkFinished(true)
}

/// The transition relation of the recurring task: spec level.
///
/// A finished cycle is replaced in place: the machine moves straight to the
/// first flag check of the next cycle, without suspending. A cycle that
/// observes the cancellation resolves the whole task. An event that does
/// not fit the state moves the machine nowhere.
pub open spec fn recurring_next(s: Recurring, e: Event) -> Recurring {
    match (s, e) {
        (Recurring::Idle(t), Event::Poll) => Recurring::FirstCheck(t),
        (Recurring::FirstCheck(t), Event::DoneRead(done)) => if done {
            Recurring::Cancelled
        } else {
            Recurring::SecondCheck(t)
        },
        (Recurring::SecondCheck(t), Event::DoneRead(done)) => if done {
            Recurring::Cancelled
        } else {
            Recurring::Cycle(one_shot_next(t, Event::Poll))
        },
        (Recurring::Cycle(t), _) => {
            if is_cycle_end(s, e) {
                Recurring::Cycle(OneShot::FirstCheck(Stage::Delay))
            } else {
                let t2 = one_shot_next(t, e);
                if t2 is Cancelled {
                    Recurring::Cancelled
                } else if t2 is Idle {
                    Recurring::Idle(t2)
                } else {
                    Recurring::Cycle(t2)
                }
            }
        },
        _ => s,
    }
}

/// The duty that each state imposes on the executor glue: spec level.
pub open spec fn recurring_duty(s: Recurring) -> Duty {
    match s {
        Recurring::Idle(_) => Duty::Suspend,
        Recurring::FirstCheck(_) => Duty::ReadFlag,
        Recurring::SecondCheck(_) => Duty::RegisterThenReadFlag,
        Recurring::Cycle(t) => one_shot_duty(t),
        Recurring::Cancelled => Duty::Resolve,
    }
}

/// The machine after consuming a whole trace of events.
pub open spec fn recurring_run(s: Recurring, es: Seq<Event>) -> Recurring
    decreases es.len(),
{
    if es.len() == 0 {
        s
    } else {
        recurring_run(recurring_next(s, es[0]), es.drop_first())
    }
}

/// How many cycles finish while the machine consumes `es` from `s`: each
/// finished cycle is one complete run of the caller's work.
pub open spec fn cycles_finished(s: Recurring, es: Seq<Event>) -> nat
    decreases es.len(),
{
    if es.len() == 0 {
        0
    } else {
        (if is_cycle_end(s, es[0]) {
            1nat
        } else {
            0nat
        }) + cycles_finished(recurring_next(s, es[0]), es.drop_first())
    }
}

/// How many times a delay is observed to elapse in `es`.
pub open spec fn delays_elapsed(es: Seq<Event>) -> nat
    decreases es.len(),
{
    if es.len() == 0 {
        0
    } else {
        (if es[0] == Event::DelayElapsed(true) {
            1nat
        } else {
            0nat
        }) + delays_elapsed(es.drop_first())
    }
}

/// Whether the embedded cycle has already started its work: that cycle may
/// finish without consuming a further elapsed delay.
pub open spec fn mid_work(s: Recurring) -> nat {
    match s {
        Recurring::Idle(t) => if work_started(t) {
            1nat
        } else {
            0nat
        },
        Recurring::FirstCheck(t) => if work_started(t) {
            1nat
        } else {
            0nat
        },
        Recurring::SecondCheck(t) => if work_started(t) {
            1nat
        } else {
            0nat
        },
        Recurring::Cycle(t) => if work_started(t) {
            1nat
        } else {
            0nat
        },
        Recurring::Cancelled => 0nat,
    }
}

/// The transition relation, executable, verified against the spec.
pub fn recurring_step(s: Recurring, e: Event) -> (r: Recurring)
    ensures
        r == recurring_next(s, e),
{
    match (s, e) {
        (Recurring::Idle(t), Event::Poll) => Recurring::FirstCheck(t),
        (Recurring::FirstCheck(t), Event::DoneRead(done)) => if done {
            Recurring::Cancelled
        } else {
            Recurring::SecondCheck(t)
        },
        (Recurring::SecondCheck(t), Event::DoneRead(done)) => if done {
            Recurring::Cancelled
        } else {
            Recurring::Cycle(one_shot_step(t, Event::Poll))
        },
        (Recurring::Cycle(t), _) => {
            let end = match (t, e) {
                (OneShot::PollWork, Event::WorkFinished(true)) => true,
                _ => false,
            };
            if end {
                Recurring::Cycle(OneShot::FirstCheck(Stage::Delay))
            } else {
                let t2 = one_shot_step(t, e);
                match t2 {
                    OneShot::Cancelled => Recurring::Cancelled,
                    OneShot::Idle(st) => Recurring::Idle(OneShot::Idle(st)),
                    _ => Recurring::Cycle(t2),
                }
            }
        },
        _ => s,
    }
}

/// Law: cancellation is terminal and final. Once the recurring task is
/// cancelled, no trace of events moves it, and no further cycle ever
/// finishes: a cancellation issued twice — or a cancellation racing with
/// further polls — adds no side effect beyond the first.
pub proof fn lemma_recurring_cancelled_is_final(es: Seq<Event>)
    ensures
        recurring_run(Recurring::Cancelled, es) == Recurring::Cancelled,
        cycles_finished(Recurring::Cancelled, es) == 0,
    decreases es.len(),
{
    if es.len() > 0 {
        lemma_recurring_cancelled_is_final(es.drop_first());
    }
}

/// Law: a cycle finishes only by its work finishing: the event that ends a
/// cycle is `WorkFinished(true)`, consumed while the embedded cycle was
/// polling its work.
pub proof fn lemma_cycle_end_is_work_finished(s: Recurring, e: Event)
    requires
        is_cycle_end(s, e),
    ensures
        e == Event::WorkFinished(true),
        s matches Recurring::Cycle(t) && t is PollWork,
        one_shot_next(s->Cycle_0, e) is Completed,
{
}

/// Law: no burst. Every finished cycle consumed an elapsed delay of its
/// own: along any trace, the number of finished cycles never exceeds the
/// number of delays observed to elapse, plus one for a cycle already past
/// its delay at the start. Cycles are therefore spaced by their delays and
/// cannot pile up, however often the task is polled.
pub proof fn lemma_cycles_need_delays(s: Recurring, es: Seq<Event>)
    ensures
        cycles_finished(s, es) <= delays_elapsed(es) + mid_work(s),
    decreases es.len(),
{
    if es.len() > 0 {
        lemma_cycles_need_delays(recurring_next(s, es[0]), es.drop_first());
    }
}

/// Law: every flag check of the recurring task — the outer double check of
/// a poll pass as well as the checks of the embedded cycle — observes a
/// pending cancellation and resolves the whole task at once.
pub proof fn lemma_recurring_observes_cancel(s: Recurring)
    requires
        s is FirstCheck || s is SecondCheck || (s matches Recurring::Cycle(t) && (t is FirstCheck
            || t is SecondCheck)),
    ensures
        recurring_next(s, Event::DoneRead(true)) is Cancelled,
{
}

/// Law: a cancellation is observed no later than the next poll, whatever
/// cycle was suspended: the first flag read of the next poll pass reports
/// true and the whole recurring task resolves.
pub proof fn lemma_recurring_next_poll_observes_cancel(t: OneShot)
    ensures
        recurring_run(Recurring::Idle(t), seq![Event::Poll, Event::DoneRead(true)])
            == Recurring::Cancelled,
{
    let es = seq![Event::Poll, Event::DoneRead(true)];
    let tail = es.drop_first();
    assert(tail =~= seq![Event::DoneRead(true)]);
    assert(tail.drop_first() =~= Seq::<Event>::empty());
    assert(recurring_run(Recurring::Idle(t), es) == recurring_run(Recurring::FirstCheck(t), tail));
    assert(recurring_run(Recurring::FirstCheck(t), tail) == recurring_run(
        Recurring::Cancelled,
        tail.drop_first(),
    ));
}

/// The states the recurring task can actually be in: while suspended or
/// between the outer checks the embedded cycle is suspended too, and inside
/// the cycle loop the embedded cycle is mid-pass, never terminal.
pub open spec fn recurring_wf(s: Recurring) -> bool {
    match s {
        Recurring::Idle(t) => t is Idle,
        Recurring::FirstCheck(t) => t is Idle,
        Recurring::SecondCheck(t) => t is Idle,
        Recurring::Cycle(t) => t is FirstCheck || t is SecondCheck || t is PollDelay
            || t is PollWork,
        Recurring::Cancelled => true,
    }
}

/// Every transition keeps the machine in its reachable states.
pub proof fn lemma_wf_is_preserved(s: Recurring, e: Event)
    requires
        recurring_wf(s),
    ensures
        recurring_wf(recurring_next(s, e)),
{
}

/// Whether `e` is the kind of observation that the current duty produces.
pub open spec fn recurring_enabled(s: Recurring, e: Event) -> bool {
    match recurring_duty(s) {
        Duty::Suspend => e is Poll,
        Duty::ReadFlag => e is DoneRead,
        Duty::RegisterThenReadFlag => e is DoneRead,
        Duty::PollDelay => e is DelayElapsed,
        Duty::PollWork => e is WorkFinished,
        Duty::Resolve => false,
    }
}

/// Law: no step gets stuck. In every reachable state, the observation that
/// the current duty produces moves the machine to a different state, and an
/// observation of any other kind moves it nowhere.
pub proof fn lemma_recurring_duty_drives_the_machine(s: Recurring, e: Event)
    requires
        recurring_wf(s),
    ensures
        recurring_enabled(s, e) ==> recurring_next(s, e) != s,
        !recurring_enabled(s, e) ==> recurring_next(s, e) == s,
{
    match s {
        Recurring::Cycle(t) => {
            lemma_duty_drives_the_machine(t, e);
        },
        _ => {},
    }
}

/// A recurring task: run a freshly built instance of the work after every
/// elapsed interval, until cancelled.
///
/// The struct carries the shared cancel signal, the configured interval
/// (the model of each cycle's delay awaitable) and the poll state machine.
/// The executor glue drives it exactly as it drives a one-shot task; in
/// addition, whenever [`ScheduledTask::note_work`] reports a finished
/// cycle, the glue must build the next cycle: a fresh delay of the
/// configured interval and a freshly invoked work instance.
pub struct ScheduledTask {
    signal: CancelWaker,
    interval_nanos: u64,
    state: Recurring,
}

impl View for ScheduledTask {
    type V = Recurring;

    closed spec fn view(&self) -> Recurring {
        self.state
    }
}

impl ScheduledTask {
    /// The shared signal that the task observes.
    pub closed spec fn signal(self) -> CancelWaker {
        self.signal
    }

    /// The configured interval, in nanoseconds.
    pub closed spec fn interval(self) -> u64 {
        self.interval_nanos
    }

    /// The configured interval, in nanoseconds.
    pub fn interval_nanos(&self) -> (n: u64)
        ensures
            n == self.interval(),
    {
        self.interval_nanos
    }

    /// What the executor glue must do next.
    pub fn duty(&self) -> (d: Duty)
        ensures
            d == recurring_duty(self@),
    {
        match self.state {
            Recurring::Idle(_) => Duty::Suspend,
            Recurring::FirstCheck(_) => Duty::ReadFlag,
            Recurring::SecondCheck(_) => Duty::RegisterThenReadFlag,
            Recurring::Cycle(t) => one_shot_duty_of(t),
            Recurring::Cancelled => Duty::Resolve,
        }
    }

    /// Whether the task has resolved. A recurring task resolves only by
    /// cancellation.
    pub fn resolved(&self) -> (r: bool)
        ensures
            r == (self@ is Cancelled),
    {
        match self.state {
            Recurring::Cancelled => true,
            _ => false,
        }
    }

    /// The executor begins a poll pass.
    pub fn begin_poll(&mut self)
        ensures
            final(self)@ == recurring_next(old(self)@, Event::Poll),
            final(self).signal() == old(self).signal(),
            final(self).interval() == old(self).interval(),
    {
        self.state = recurring_step(self.state, Event::Poll);
    }

    /// Reads the cancel flag and feeds the observation to the machine.
    pub fn observe_cancel(&mut self) -> (done: bool)
        ensures
            final(self)@ == recurring_next(old(self)@, Event::DoneRead(done)),
            final(self).signal() == old(self).signal(),
            final(self).interval() == old(self).interval(),
    {
        let done = self.signal.is_done();
        self.state = recurring_step(self.state, Event::DoneRead(done));
        done
    }

    /// Registers `w` as the waiting consumer, then re-reads the cancel flag
    /// — the same double check as in the one-shot task — and feeds the
    /// observation to the machine.
    pub fn register_and_observe(&mut self, w: &Waker) -> (done: bool)
        ensures
            final(self)@ == recurring_next(old(self)@, Event::DoneRead(done)),
            final(self).signal() == old(self).signal(),
            final(self).interval() == old(self).interval(),
    {
        self.signal.register_waiter(w);
        let done = self.signal.is_done();
        self.state = recurring_step(self.state, Event::DoneRead(done));
        done
    }

    /// The running cycle's delay was polled; `elapsed` is what it reported.
    pub fn note_delay(&mut self, elapsed: bool)
        ensures
            final(self)@ == recurring_next(old(self)@, Event::DelayElapsed(elapsed)),
            final(self).signal() == old(self).signal(),
            final(self).interval() == old(self).interval(),
    {
        self.state = recurring_step(self.state, Event::DelayElapsed(elapsed));
    }

    /// The running cycle's work was polled; `finished` is what it reported.
    /// Returns whether this finished the cycle: if so, the glue must build
    /// the next one — a fresh delay of the configured interval and a
    /// freshly invoked work instance — and keep polling without suspending.
    pub fn note_work(&mut self, finished: bool) -> (cycle_over: bool)
        ensures
            final(self)@ == recurring_next(old(self)@, Event::WorkFinished(finished)),
            final(self).signal() == old(self).signal(),
            final(self).interval() == old(self).interval(),
            cycle_over == is_cycle_end(old(self)@, Event::WorkFinished(finished)),
    {
        let cycle_over = finished && (match self.state {
            Recurring::Cycle(OneShot::PollWork) => true,
            _ => false,
        });
        self.state = recurring_step(self.state, Event::WorkFinished(finished));
        cycle_over
    }
}

/// Schedules a recurring task: builds a fresh shared cancel signal and
/// returns the cancel token together with the task, which starts suspended
/// at the head of its first cycle, with the same signal as the token.
pub fn every(interval_nanos: u64) -> (r: (CancelToken, ScheduledTask))
    ensures
        r.1@ == Recurring::Idle(OneShot::Idle(Stage::Delay)),
        r.0.signal() == r.1.signal(),
        r.1.interval() == interval_nanos,
{
    let waker = CancelWaker::new(AtomicBool::new(false));
    let token = CancelToken::new(waker.share());
    (token, ScheduledTask {
        signal: waker,
        interval_nanos,
        state: Recurring::Idle(OneShot::Idle(Stage::Delay)),
    })
}

} // verus!
