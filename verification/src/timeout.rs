//! A deadline around another operation.

use crate::delay::{delay_step, Delay, DelayState};
use crate::poll::{Poll, Step};
use crate::state::TimerState;
use std::future::Future;
use std::sync::Arc;
use std::task::Waker;
use std::time::Duration;
use vstd::prelude::*;

verus! {

/// The failure of an operation that did not complete within its deadline.
/// It carries nothing but that fact.
#[derive(Clone, Copy, Debug, PartialEq, Eq)]
pub struct TimeoutError;

impl TimeoutError {
    /// The error in words.
    pub fn message(&self) -> (text: String)
        ensures
            text@ == "future timed out"@,
    {
        "future timed out".to_owned()
    }
}

/// What a deadline and the operation under it come to together: a deadline
/// that has passed is a failure whatever the operation has to say, and under
/// an open deadline the operation's own result is passed on as a success.
pub open spec fn timeout_poll<T>(deadline: Poll<()>, inner: Poll<T>) -> Poll<
    Result<T, TimeoutError>,
> {
    match deadline {
        Poll::Ready(_) => Poll::Ready(Err(TimeoutError)),
        Poll::Pending => match inner {
            Poll::Ready(value) => Poll::Ready(Ok(value)),
            Poll::Pending => Poll::Pending,
        },
    }
}

/// One poll of a timeout whose deadline of `limit` stands at `s`: `expired`
/// is what the deadline's poll reads from its completion cell, `inner` what
/// the operation answers if it is polled.
pub open spec fn timeout_step<T>(s: DelayState, limit: Duration, expired: bool, inner: Poll<T>) -> (
    DelayState,
    Step<Result<T, TimeoutError>>,
) {
    let (next, deadline) = delay_step(s, limit, expired);
    (next, Step { arm: deadline.arm, poll: timeout_poll(deadline.poll, inner) })
}

/// Puts a deadline on any future.
pub trait FutureExt {
    /// Puts this future under a deadline of `timeout`, counted from the
    /// first poll of the result.
    fn timeout(self, timeout: Duration) -> (t: Timeout<Self>) where Self: Sized
        ensures
            t.future() == self,
            t.deadline() == (DelayState { armed: false, terminated: false }),
            t.limit() == timeout,
    {
        Timeout::new(self, timeout)
    }
}

impl<F, T> FutureExt for F where F: Future<Output = T> {

}

/// An operation together with the delay that bounds it.
#[derive(Debug)]
#[must_use]
pub struct Timeout<F> {
    future: F,
    delay: Delay,
}

impl<F> Timeout<F> {
    /// The operation under the deadline.
    pub closed spec fn future(&self) -> F {
        self.future
    }

    /// Where the deadline stands.
    pub closed spec fn deadline(&self) -> DelayState {
        self.delay@
    }

    /// The time that the operation is given, counted from the first poll.
    pub closed spec fn limit(&self) -> Duration {
        self.delay.duration()
    }

    /// The completion cell of the deadline. A timeout keeps the cell it was
    /// made with.
    pub closed spec fn cell(&self) -> Arc<TimerState> {
        self.delay.cell()
    }

    /// Puts `future` under a deadline of `timeout`. The delay is made here,
    /// once, and is never restarted.
    pub fn new(future: F, timeout: Duration) -> (t: Timeout<F>)
        ensures
            t.future() == future,
            t.deadline() == (DelayState { armed: false, terminated: false }),
            t.limit() == timeout,
    {
        let delay = Delay::new(timeout);
        Timeout { future, delay }
    }

    /// The completion cell of the deadline, for the backend's callback to
    /// report expiry to.
    pub fn state(&self) -> (cell: &Arc<TimerState>)
        ensures
            *cell == self.cell(),
    {
        self.delay.state()
    }

    /// Whether the deadline has passed.
    pub fn is_expired(&self) -> (b: bool)
        ensures
            b == self.deadline().terminated,
    {
        self.delay.is_terminated()
    }

    /// Gives the operation back and drops the deadline.
    pub fn into_inner(self) -> (future: F)
        ensures
            future == self.future(),
    {
        self.future
    }

    /// Polls the timeout. The deadline is polled first, with `waker`. Where
    /// it has passed, the result is the failure and the operation is left
    /// alone; else `poll_inner` polls the operation and its answer is passed
    /// on.
    pub fn poll<T, P: FnOnce(&mut F) -> Poll<T>>(&mut self, waker: &Waker, poll_inner: P) -> (s:
        Step<Result<T, TimeoutError>>)
        requires
            forall|f: &mut F| call_requires(poll_inner, (f,)),
        ensures
            final(self).limit() == old(self).limit(),
            final(self).cell() == old(self).cell(),
            exists|expired: bool, inner: Poll<T>|
                #![trigger timeout_step(old(self).deadline(), old(self).limit(), expired, inner)]
                ({
                    &&& timeout_step(old(self).deadline(), old(self).limit(), expired, inner) == (
                        final(self).deadline(),
                        s,
                    )
                    &&& (if delay_step(old(self).deadline(), old(self).limit(), expired).1.poll
                        is Ready {
                        final(self).future() == old(self).future()
                    } else {
                        exists|f: &mut F|
                            #![trigger call_ensures(poll_inner, (f,), inner)]
                            ({
                                &&& *f == old(self).future()
                                &&& *final(f) == final(self).future()
                                &&& call_ensures(poll_inner, (f,), inner)
                            })
                    })
                }),
    {
        let deadline = self.delay.poll(waker);
        match deadline.poll {
            Poll::Ready(_) => {
                let s = Self::settle(deadline, Poll::Pending);
                assert(timeout_step(
                    old(self).deadline(),
                    old(self).limit(),
                    true,
                    Poll::<T>::Pending,
                ) == (self.deadline(), s));
                s
            },
            Poll::Pending => {
                let ghost expired = choose|expired: bool|
                    delay_step(old(self).deadline(), old(self).limit(), expired) == (
                        self.deadline(),
                        deadline,
                    );
                let inner = poll_inner(&mut self.future);
                let s = Self::settle(deadline, inner);
                assert(timeout_step(old(self).deadline(), old(self).limit(), expired, inner) == (
                    self.deadline(),
                    s,
                ));
                s
            },
        }
    }

    /// Joins what the deadline's poll gave with what the operation answered.
    /// Where both are ready at once, the deadline wins.
    pub fn settle<T>(deadline: Step<()>, inner: Poll<T>) -> (s: Step<Result<T, TimeoutError>>)
        ensures
            s == (Step { arm: deadline.arm, poll: timeout_poll(deadline.poll, inner) }),
    {
        let poll = match deadline.poll {
            Poll::Ready(_) => Poll::Ready(Err(TimeoutError)),
            Poll::Pending => match inner {
                Poll::Ready(value) => Poll::Ready(Ok(value)),
                Poll::Pending => Poll::Pending,
            },
        };
        Step { arm: deadline.arm, poll }
    }
}

/// A deadline that has passed wins: the result is the failure, whether or
/// not the operation is ready at the same poll.
pub proof fn lemma_deadline_wins<T>(inner: Poll<T>)
    ensures
        timeout_poll(Poll::Ready(()), inner) == Poll::<Result<T, TimeoutError>>::Ready(
            Err(TimeoutError),
        ),
{
}

/// A timeout whose deadline has expired resolves to the failure on the next
/// poll of its armed delay, even around an operation that never completes,
/// and stays resolved.
pub proof fn lemma_expired_timeout_fails<T>(s: DelayState, limit: Duration, inner: Poll<T>)
    requires
        s.armed,
    ensures
        timeout_step(s, limit, true, inner).1.poll == Poll::<Result<T, TimeoutError>>::Ready(
            Err(TimeoutError),
        ),
        timeout_step(s, limit, true, inner).0.terminated,
{
}

} // verus!
