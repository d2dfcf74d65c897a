//! A timer that ticks again and again, one period apart.

use crate::poll::{Poll, Step};
use crate::state::{Timer, TimerState};
use crate::sys::ArmRequest;
use crate::time::now;
use std::sync::Arc;
use std::task::Waker;
use std::time::Duration;
use std::time::Instant;
use vstd::prelude::*;

verus! {

/// Where an interval stands: not yet armed, or armed. It has no final state.
pub struct IntervalState {
    /// The first poll has asked for the native timer.
    pub armed: bool,
}

/// One poll of an interval of `period` that stands at `s`. `tick` is what
/// the poll takes from the completion cell: nothing where the cell has not
/// expired since the last poll, else the time at which this poll found the
/// expiry and cleared it.
///
/// The first poll asks for the native timer and is pending. An armed
/// interval yields one tick for an expiry taken. It never yields the end of
/// the stream.
pub open spec fn interval_step(s: IntervalState, period: Duration, tick: Option<Instant>) -> (
    IntervalState,
    Step<Option<Instant>>,
) {
    if !s.armed {
        (
            IntervalState { armed: true },
            Step { arm: Some(ArmRequest::Repeating(period)), poll: Poll::Pending },
        )
    } else {
        match tick {
            Some(at) => (s, Step { arm: None, poll: Poll::Ready(Some(at)) }),
            None => (s, Step { arm: None, poll: Poll::Pending }),
        }
    }
}

/// A periodic timer; as a stream, its items are the times of its ticks.
#[derive(Debug)]
#[must_use]
pub struct Interval {
    inner: Timer,
    interval: Duration,
}

impl View for Interval {
    type V = IntervalState;

    closed spec fn view(&self) -> IntervalState {
        IntervalState { armed: self.inner.active() }
    }
}

impl Interval {
    /// The time between two ticks.
    pub closed spec fn period(&self) -> Duration {
        self.interval
    }

    /// The completion cell. An interval keeps the cell it was made with.
    pub closed spec fn cell(&self) -> Arc<TimerState> {
        self.inner.cell()
    }

    /// An interval that ticks every `interval`, first that long after its
    /// first poll. Nothing is asked of the OS before that.
    pub fn new(interval: Duration) -> (i: Interval)
        ensures
            i@ == (IntervalState { armed: false }),
            i.period() == interval,
    {
        let inner = Timer::new();
        Interval { inner, interval }
    }

    /// The completion cell, for the backend's callback to report expiry to.
    pub fn state(&self) -> (cell: &Arc<TimerState>)
        ensures
            *cell == self.cell(),
    {
        self.inner.state()
    }

    /// Polls the interval for its next tick: registers `waker` with the
    /// completion cell, then takes the cell's expiry, if there is one, and
    /// the step that follows from it. The flag is read and cleared at once,
    /// so expiries that pile up between two polls make one tick.
    pub fn poll_next(&mut self, waker: &Waker) -> (s: Step<Option<Instant>>)
        ensures
            final(self).period() == old(self).period(),
            final(self).cell() == old(self).cell(),
            exists|tick: Option<Instant>| #[trigger]
                interval_step(old(self)@, old(self).period(), tick) == (final(self)@, s),
            s.poll != Poll::Ready(None::<Instant>),
    {
        self.inner.register_waker(waker);
        if !self.inner.is_active() {
            return self.step(None);
        }
        let tick = if self.inner.take_done() {
            Some(now())
        } else {
            None
        };
        self.step(tick)
    }

    /// Takes the step of a poll that takes `tick` from the completion cell.
    pub fn step(&mut self, tick: Option<Instant>) -> (s: Step<Option<Instant>>)
        ensures
            final(self).period() == old(self).period(),
            final(self).cell() == old(self).cell(),
            (final(self)@, s) == interval_step(old(self)@, old(self).period(), tick),
    {
        if !self.inner.is_active() {
            self.inner.activate();
            Step { arm: Some(ArmRequest::Repeating(self.interval)), poll: Poll::Pending }
        } else {
            match tick {
                Some(at) => Step { arm: None, poll: Poll::Ready(Some(at)) },
                None => Step { arm: None, poll: Poll::Pending },
            }
        }
    }

    /// Whether the stream of ticks has ended: never.
    pub fn is_terminated(&self) -> (b: bool)
        ensures
            !b,
    {
        false
    }
}

/// An interval never ends: no poll yields the end of the stream, whatever
/// it takes from the cell, and an armed interval stays armed.
pub proof fn lemma_never_ends(s: IntervalState, period: Duration, tick: Option<Instant>)
    ensures
        interval_step(s, period, tick).1.poll != Poll::Ready(None::<Instant>),
        interval_step(s, period, tick).0.armed,
{
}

} // verus!
