//! What one poll of a timer hands back.

use crate::sys::ArmRequest;
use vstd::prelude::*;

verus! {

/// Whether a polled operation has its value yet.
#[derive(Debug, PartialEq, Eq)]
pub enum Poll<T> {
    /// The value is there.
    Ready(T),
    /// Not yet; the registered waker is woken when polling again is worthwhile.
    Pending,
}

/// The outcome of one poll: the result for the task, and what the caller is
/// to do for the timer before it returns to its executor.
#[derive(Debug, PartialEq, Eq)]
pub struct Step<T> {
    /// The native timer to create and arm, on the poll that first needs it.
    pub arm: Option<ArmRequest>,
    /// The result of the poll.
    pub poll: Poll<T>,
}

} // verus!
