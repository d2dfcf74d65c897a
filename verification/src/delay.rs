//! A timer that completes once, a given time after its first poll.

use crate::poll::{Poll, Step};
use crate::state::{Timer, TimerState};
use crate::sys::ArmRequest;
use std::sync::Arc;
use std::task::Waker;
use std::time::Duration;
use vstd::prelude::*;

verus! {

/// Where a delay stands: not yet armed, armed and waiting, or fired.
pub struct DelayState {
    /// The first poll has asked for the native timer.
    pub armed: bool,
    /// A poll has seen the expiry. Never reset.
    pub terminated: bool,
}

impl DelayState {
    /// A delay fires only after it was armed.
    pub open spec fn valid(self) -> bool {
        self.terminated ==> self.armed
    }
}

/// One poll of a delay over `delay` that stands at `s`, where `expired` is
/// what the poll reads from the completion cell.
///
/// A fired delay is ready without looking. The first poll asks for the
/// native timer and is pending: nothing can have expired before that. An
/// armed delay fires when the cell has expired.
pub open spec fn delay_step(s: DelayState, delay: Duration, expired: bool) -> (DelayState, Step<()>) {
    if s.terminated {
        (s, Step { arm: None, poll: Poll::Ready(()) })
    } else if !s.armed {
        (
            DelayState { armed: true, terminated: false },
            Step { arm: Some(ArmRequest::Once(delay)), poll: Poll::Pending },
        )
    } else if expired {
        (DelayState { armed: true, terminated: true }, Step { arm: None, poll: Poll::Ready(()) })
    } else {
        (s, Step { arm: None, poll: Poll::Pending })
    }
}

/// Where a delay stands after one poll for each entry of `seen`, in order,
/// each entry being what that poll reads from the cell.
pub open spec fn delay_after(s: DelayState, delay: Duration, seen: Seq<bool>) -> DelayState
    decreases seen.len(),
{
    if seen.len() == 0 {
        s
    } else {
        delay_after(delay_step(s, delay, seen[0]).0, delay, seen.skip(1))
    }
}

/// A one-shot timer.
#[derive(Debug)]
#[must_use]
pub struct Delay {
    inner: Timer,
    delay: Duration,
    done: bool,
}

impl View for Delay {
    type V = DelayState;

    closed spec fn view(&self) -> DelayState {
        DelayState { armed: self.inner.active(), terminated: self.done }
    }
}

impl Delay {
    /// The time between the first poll and the expiry.
    pub closed spec fn duration(&self) -> Duration {
        self.delay
    }

    /// The completion cell. A delay keeps the cell it was made with.
    pub closed spec fn cell(&self) -> Arc<TimerState> {
        self.inner.cell()
    }

    #[verifier::type_invariant]
    spec fn fired_was_armed(&self) -> bool {
        self.done ==> self.inner.active()
    }

    /// A delay of `delay`, counted from its first poll. Nothing is asked of
    /// the OS before that.
    pub fn new(delay: Duration) -> (d: Delay)
        ensures
            d@ == (DelayState { armed: false, terminated: false }),
            d.duration() == delay,
    {
        let inner = Timer::new();
        Delay { inner, delay, done: false }
    }

    /// The completion cell, for the backend's callback to report expiry to.
    pub fn state(&self) -> (cell: &Arc<TimerState>)
        ensures
            *cell == self.cell(),
    {
        self.inner.state()
    }

    /// Polls the delay: registers `waker` with the completion cell, then
    /// reads the cell's expiry flag and takes the step that follows from it.
    pub fn poll(&mut self, waker: &Waker) -> (s: Step<()>)
        ensures
            final(self).duration() == old(self).duration(),
            final(self).cell() == old(self).cell(),
            final(self)@.valid(),
            exists|expired: bool| #[trigger]
                delay_step(old(self)@, old(self).duration(), expired) == (final(self)@, s),
    {
        if self.done {
            return self.step(true);
        }
        self.inner.register_waker(waker);
        let expired = self.inner.is_done();
        self.step(expired)
    }

    /// Takes the step of a poll that reads `expired` from the completion
    /// cell.
    pub fn step(&mut self, expired: bool) -> (s: Step<()>)
        ensures
            final(self).duration() == old(self).duration(),
            final(self).cell() == old(self).cell(),
            final(self)@.valid(),
            (final(self)@, s) == delay_step(old(self)@, old(self).duration(), expired),
    {
        proof {
            use_type_invariant(&*self);
        }
        if self.done {
            Step { arm: None, poll: Poll::Ready(()) }
        } else if !self.inner.is_active() {
            self.inner.activate();
            Step { arm: Some(ArmRequest::Once(self.delay)), poll: Poll::Pending }
        } else if expired {
            self.done = true;
            Step { arm: None, poll: Poll::Ready(()) }
        } else {
            Step { arm: None, poll: Poll::Pending }
        }
    }

    /// Whether the delay has fired. One that has was armed before.
    pub fn is_terminated(&self) -> (b: bool)
        ensures
            b == self@.terminated,
            b ==> self@.armed,
    {
        proof {
            use_type_invariant(self);
        }
        self.done
    }
}

/// Once a poll has reported ready, every later poll reports ready too,
/// whatever it reads from the cell, and asks for nothing.
pub proof fn lemma_ready_is_terminal(
    s: DelayState,
    delay: Duration,
    expired: bool,
    later: Seq<bool>,
    last: bool,
)
    requires
        delay_step(s, delay, expired).1.poll is Ready,
    ensures
        delay_step(delay_after(delay_step(s, delay, expired).0, delay, later), delay, last).1
            == (Step::<()> { arm: None, poll: Poll::Ready(()) }),
{
    lemma_fired_stays_fired(delay_step(s, delay, expired).0, delay, later);
}

/// A fired delay stays fired through any number of polls.
pub proof fn lemma_fired_stays_fired(s: DelayState, delay: Duration, seen: Seq<bool>)
    requires
        s.terminated,
    ensures
        delay_after(s, delay, seen) == s,
    decreases seen.len(),
{
    if seen.len() > 0 {
        lemma_fired_stays_fired(s, delay, seen.skip(1));
    }
}

/// An armed delay reports ready on the first poll that finds the cell
/// expired.
pub proof fn lemma_expiry_is_reported(s: DelayState, delay: Duration)
    requires
        s.armed,
    ensures
        delay_step(s, delay, true).1.poll is Ready,
        delay_step(s, delay, true).0.terminated,
{
}

/// A delay that has not fired stays pending through every poll that finds
/// the cell not expired: it is ready only after an expiry.
pub proof fn lemma_no_early_fire(s: DelayState, delay: Duration, seen: Seq<bool>, last: bool)
    requires
        !s.terminated,
        !last,
        forall|i: int| 0 <= i < seen.len() ==> !seen[i],
    ensures
        !delay_after(s, delay, seen).terminated,
        delay_step(delay_after(s, delay, seen), delay, last).1.poll is Pending,
    decreases seen.len(),
{
    if seen.len() > 0 {
        lemma_no_early_fire(delay_step(s, delay, seen[0]).0, delay, seen.skip(1), last);
    }
}

/// The native timer is asked for exactly once: on the first poll, as a
/// single expiry after the delay's duration.
pub proof fn lemma_armed_once(s: DelayState, delay: Duration, expired: bool)
    requires
        s.valid(),
    ensures
        delay_step(s, delay, expired).0.valid(),
        delay_step(s, delay, expired).0.armed,
        delay_step(s, delay, expired).1.arm == (if s.armed {
            None
        } else {
            Some(ArmRequest::Once(delay))
        }),
{
}

} // verus!
