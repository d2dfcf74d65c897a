//! Poll-driven timers backed by the operating system's native timer facility.
//!
//! The crate holds the platform-independent core of one-shot and periodic
//! timers: the completion cell shared with the OS callback, the state machines
//! behind `Delay`, `Interval` and `Timeout`, and the conversion of durations
//! into each platform's native units. The system calls themselves are made by
//! the embedding crate, which performs the requests these types hand out:
//! a poll returns, beside its result, the native timer to create and arm, and
//! a backend returns the values to arm it with and the calls that end it.

pub mod delay;
pub mod interval;
pub mod poll;
pub mod protocol;
pub mod state;
pub mod sys;
pub mod time;
pub mod timeout;

pub use delay::Delay;
pub use interval::Interval;
pub use poll::{Poll, Step};
pub use state::{Timer, TimerState};
pub use sys::{ArmError, ArmRequest, TeardownStep};
pub use timeout::{FutureExt, Timeout, TimeoutError};
