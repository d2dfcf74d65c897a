//! The completion cell: the one piece of state that the polling side and the
//! OS callback both touch.
//!
//! The cell is an expiry flag and a slot for the waker of the task that waits.
//! Both are atomic, so the callback may run on any thread, or in a signal
//! handler on the polling thread itself, without taking a lock. Two rules of
//! order make the pair safe against a lost wakeup: the polling side registers
//! its waker before it reads the flag, and the callback sets the flag before
//! it wakes. `crate::protocol` proves that under these rules no interleaving
//! loses the wakeup.

use futures::task::AtomicWaker;
use std::sync::atomic::AtomicBool;
use std::sync::atomic::Ordering;
use std::sync::Arc;
use std::task::Waker;
use vstd::prelude::*;

verus! {

/// `futures::task::AtomicWaker`, the slot for a waker. Opaque: it changes
/// under a shared reference.
#[verifier::external_type_specification]
#[verifier::external_body]
pub struct ExAtomicWaker(AtomicWaker);

/// `std::task::Waker`, the handle that wakes a task. Opaque.
#[verifier::external_type_specification]
#[verifier::external_body]
pub struct ExWaker(Waker);

/// `AtomicWaker::new` makes an empty slot. Nothing is claimed of it.
pub assume_specification[ AtomicWaker::new ]() -> AtomicWaker;

/// `AtomicWaker::register` stores a clone of `waker` in the slot in place of
/// what was there; where a wake is under way on another thread it wakes
/// `waker` at once instead. The slot is shared, so nothing is claimed of its
/// contents. It runs the waker's own `clone`, and is trusted to return for
/// the wakers that executors hand out.
pub assume_specification[ AtomicWaker::register ](slot: &AtomicWaker, waker: &Waker);

/// `AtomicWaker::wake` takes the waker out of the slot, if there is one, and
/// wakes it. Nothing is claimed of the slot afterwards. It runs the waker's
/// own `wake`, and is trusted to return for the wakers that executors hand
/// out.
pub assume_specification[ AtomicWaker::wake ](slot: &AtomicWaker);

/// The state shared between a timer and the OS callback that reports its
/// expiry.
#[derive(Debug)]
pub struct TimerState {
    wake: AtomicWaker,
    done: AtomicBool,
}

impl TimerState {
    /// A cell that has not expired and holds no waker.
    pub fn new() -> TimerState {
        TimerState { wake: AtomicWaker::new(), done: AtomicBool::new(false) }
    }

    /// Stores `waker` as the one to wake on expiry, in place of an earlier
    /// one. For the polling side, before it reads the flag.
    pub fn register_waker(&self, waker: &Waker) {
        self.wake.register(waker);
    }

    /// Writes the expiry flag.
    pub fn set_done(&self, done: bool) {
        self.done.store(done, Ordering::SeqCst);
    }

    /// Reads the expiry flag and leaves it as it is.
    pub fn done(&self) -> bool {
        self.done.load(Ordering::SeqCst)
    }

    /// Reads the expiry flag and clears it in one step, so that no expiry is
    /// seen twice.
    pub fn take_done(&self) -> bool {
        self.done.swap(false, Ordering::SeqCst)
    }

    /// Wakes the registered waker, if there is one, and empties the slot.
    pub fn wake(&self) {
        self.wake.wake();
    }

    /// Reports an expiry: sets the flag, then wakes the registered waker.
    /// For the OS callback; it neither allocates nor locks.
    pub fn mark_expired(&self) {
        self.set_done(true);
        self.wake();
    }
}

/// A completion cell together with the record of whether its native timer
/// was armed.
#[derive(Debug)]
pub struct Timer {
    state: Arc<TimerState>,
    active: bool,
}

impl Timer {
    /// Whether the native timer was armed.
    pub closed spec fn active(&self) -> bool {
        self.active
    }

    /// The completion cell. A timer keeps the cell it was made with.
    pub closed spec fn cell(&self) -> Arc<TimerState> {
        self.state
    }

    /// A timer with a fresh cell, not armed.
    pub fn new() -> (t: Timer)
        ensures
            !t.active(),
    {
        Timer { state: Arc::new(TimerState::new()), active: false }
    }

    /// The cell, for the backend's callback to report expiry to.
    pub fn state(&self) -> (cell: &Arc<TimerState>)
        ensures
            *cell == self.cell(),
    {
        &self.state
    }

    pub fn register_waker(&self, waker: &Waker) {
        self.state.register_waker(waker);
    }

    pub fn is_active(&self) -> (b: bool)
        ensures
            b == self.active(),
    {
        self.active
    }

    /// Whether the cell has expired; the flag stays set.
    pub fn is_done(&self) -> bool {
        self.state.done()
    }

    /// Whether the cell has expired since it was last asked; the flag is
    /// cleared.
    pub fn take_done(&self) -> bool {
        self.state.take_done()
    }

    /// Records that the native timer is being armed.
    pub fn activate(&mut self)
        ensures
            final(self).active(),
            final(self).cell() == old(self).cell(),
        no_unwind
    {
        self.active = true;
    }
}

} // verus!
