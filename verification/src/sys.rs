//! What each platform's native timer is armed with, and how it is torn down.
//!
//! A backend here is the bookkeeping half of a native timer: it holds the OS
//! handle as a plain number, remembers whether the timer was ever armed, and
//! turns a duration into the values that the OS call takes. The embedding
//! crate makes the call with exactly those values.

pub mod linux;
pub mod macos;
pub mod windows;

use std::time::Duration;
use vstd::prelude::*;

verus! {

/// How a timer is to be scheduled.
#[derive(Clone, Copy, Debug, PartialEq, Eq)]
pub enum ArmRequest {
    /// A single expiry, the given time from now.
    Once(Duration),
    /// A first expiry the given time from now, then one every such period.
    Repeating(Duration),
}

/// Why a backend did not arm its timer.
#[derive(Clone, Copy, Debug, PartialEq, Eq)]
pub enum ArmError {
    /// The timer was armed before; a native timer is armed once.
    AlreadyActive,
    /// The duration does not fit the platform's native time unit.
    OutOfRange,
}

/// One OS call of a backend's teardown.
#[derive(Clone, Copy, Debug, PartialEq, Eq)]
pub enum TeardownStep {
    /// Cancel the pending expiry.
    Disarm,
    /// Resume a timer source that is still suspended.
    Resume,
    /// Block until a callback that is in flight has returned.
    WaitForCallbacks,
    /// Give the timer object back to the OS.
    Release,
}

} // verus!
