//! Windows thread-pool timers, armed in 100-nanosecond ticks.

use crate::sys::{ArmError, ArmRequest, TeardownStep};
use crate::time::{duration_secs, duration_subsec_nanos, subsec_nanos, whole_secs, NANOS_PER_SEC};
use std::time::Duration;
use vstd::prelude::*;

verus! {

/// Ticks of 100 nanoseconds in one second.
pub const TICKS_PER_SEC: u64 = 10_000_000;

/// Ticks of 100 nanoseconds in one millisecond.
pub const TICKS_PER_MILLI: i64 = 10_000;

/// A 64-bit time in the two halves that the OS reads it from.
#[derive(Clone, Copy, Debug, PartialEq, Eq)]
pub struct FileTime {
    pub low: u32,
    pub high: u32,
}

/// The values that `SetThreadpoolTimerEx` is called with.
#[derive(Clone, Copy, Debug, PartialEq, Eq)]
pub struct TimerSetting {
    /// The due time; a negative number of ticks counts from now.
    pub due_time: FileTime,
    /// The period in milliseconds; zero for a single expiry.
    pub period: u32,
}

/// The length in ticks of `secs` seconds and `nanos` nanoseconds, rounded down.
pub open spec fn ticks_of(secs: u64, nanos: u32) -> int {
    secs * 10_000_000 + nanos / 100
}

/// Whether a span can be armed once: its ticks fit a signed 64-bit due time.
pub open spec fn fits(secs: u64, nanos: u32) -> bool {
    nanos < NANOS_PER_SEC && ticks_of(secs, nanos) <= i64::MAX
}

/// The period in milliseconds of a span of `ticks` ticks.
///
/// A period of zero would make the timer expire once only, so a span below
/// one millisecond repeats every millisecond.
pub open spec fn period_of(ticks: int) -> int {
    if ticks / 10_000 == 0 {
        1
    } else {
        ticks / 10_000
    }
}

/// Whether a span can be armed as a period: it fits as a due time and its
/// milliseconds fit 32 bits.
pub open spec fn fits_period(secs: u64, nanos: u32) -> bool {
    fits(secs, nanos) && period_of(ticks_of(secs, nanos)) <= u32::MAX
}

/// The 64 bits of `ticks` in two's complement.
pub open spec fn bits_of(ticks: i64) -> int {
    if ticks >= 0 {
        ticks as int
    } else {
        ticks + 0x1_0000_0000_0000_0000
    }
}

/// The 64 bits that a `FileTime` holds.
pub open spec fn filetime_bits(t: FileTime) -> int {
    t.high * 0x1_0000_0000 + t.low
}

/// The setting for a single expiry after the given span.
pub open spec fn one_shot(secs: u64, nanos: u32) -> TimerSetting {
    TimerSetting { due_time: filetime_of((-ticks_of(secs, nanos)) as i64), period: 0 }
}

/// The setting for an expiry after the given span and every such span again.
pub open spec fn periodic(secs: u64, nanos: u32) -> TimerSetting {
    TimerSetting {
        due_time: filetime_of((-ticks_of(secs, nanos)) as i64),
        period: period_of(ticks_of(secs, nanos)) as u32,
    }
}

/// The `FileTime` whose 64 bits are those of `ticks`.
pub open spec fn filetime_of(ticks: i64) -> FileTime {
    FileTime {
        low: (bits_of(ticks) % 0x1_0000_0000) as u32,
        high: (bits_of(ticks) / 0x1_0000_0000) as u32,
    }
}

/// The length of a span in ticks, or `None` where it does not fit a due time.
pub fn ticks(secs: u64, nanos: u32) -> (t: Option<i64>)
    ensures
        t == (if fits(secs, nanos) {
            Some(ticks_of(secs, nanos) as i64)
        } else {
            None
        }),
{
    if nanos >= NANOS_PER_SEC {
        return None;
    }
    let sub: u64 = (nanos / 100) as u64;
    // i64::MAX / TICKS_PER_SEC, and what is left of i64::MAX beyond it
    if secs > 922_337_203_685 || (secs == 922_337_203_685 && sub > 4_775_807) {
        return None;
    }
    let total: u64 = secs * TICKS_PER_SEC + sub;
    Some(total as i64)
}

/// The period in milliseconds of a span of `ticks` ticks, or `None` where
/// the span is negative or its milliseconds do not fit 32 bits.
pub fn period(ticks: i64) -> (p: Option<u32>)
    ensures
        p == (if 0 <= ticks && period_of(ticks as int) <= u32::MAX {
            Some(period_of(ticks as int) as u32)
        } else {
            None
        }),
{
    if ticks < 0 {
        return None;
    }
    let millis: i64 = ticks / TICKS_PER_MILLI;
    if millis == 0 {
        Some(1)
    } else if millis > 0xffff_ffff {
        None
    } else {
        Some(millis as u32)
    }
}

/// Splits a due time into the two halves of a `FileTime`, low bits first.
pub fn filetime(ticks: i64) -> (t: FileTime)
    ensures
        t == filetime_of(ticks),
        filetime_bits(t) == bits_of(ticks),
{
    let bits: u64 = if ticks >= 0 {
        ticks as u64
    } else {
        // two's complement: 2^64 + ticks
        u64::MAX - ((-(ticks + 1)) as u64)
    };
    let low: u32 = (bits % 0x1_0000_0000) as u32;
    let high: u32 = (bits / 0x1_0000_0000) as u32;
    FileTime { low, high }
}

/// The bookkeeping of one thread-pool timer.
#[derive(Debug)]
pub struct NativeTimer {
    inner: usize,
    active: bool,
}

impl NativeTimer {
    /// The address of the OS timer object.
    pub closed spec fn id(&self) -> usize {
        self.inner
    }

    /// Whether the timer was armed.
    pub closed spec fn active(&self) -> bool {
        self.active
    }

    /// Takes over a timer that the OS has just created and that is not armed.
    pub fn new(timer: usize) -> (t: NativeTimer)
        ensures
            t.id() == timer,
            !t.active(),
    {
        NativeTimer { inner: timer, active: false }
    }

    /// The address of the OS timer object, for the calls that arm and close it.
    pub fn raw(&self) -> (id: usize)
        ensures
            id == self.id(),
    {
        self.inner
    }

    pub fn is_active(&self) -> (b: bool)
        ensures
            b == self.active(),
    {
        self.active
    }

    /// Arms the timer for a single expiry `delay` from now and returns the
    /// values to hand to `SetThreadpoolTimerEx`.
    pub fn init_delay(&mut self, delay: Duration) -> (r: Result<TimerSetting, ArmError>)
        ensures
            final(self).id() == old(self).id(),
            r == (if old(self).active() {
                Err::<TimerSetting, ArmError>(ArmError::AlreadyActive)
            } else if !fits(duration_secs(delay), duration_subsec_nanos(delay)) {
                Err(ArmError::OutOfRange)
            } else {
                Ok(one_shot(duration_secs(delay), duration_subsec_nanos(delay)))
            }),
            final(self).active() == (old(self).active() || r is Ok),
    {
        if self.active {
            return Err(ArmError::AlreadyActive);
        }
        match ticks(whole_secs(&delay), subsec_nanos(&delay)) {
            Some(ticks) => Ok(self.init(-ticks, 0)),
            None => Err(ArmError::OutOfRange),
        }
    }

    /// Arms the timer for an expiry every `interval`, the first one `interval`
    /// from now, and returns the values to hand to `SetThreadpoolTimerEx`.
    pub fn init_interval(&mut self, interval: Duration) -> (r: Result<TimerSetting, ArmError>)
        ensures
            final(self).id() == old(self).id(),
            r == (if old(self).active() {
                Err::<TimerSetting, ArmError>(ArmError::AlreadyActive)
            } else if !fits_period(duration_secs(interval), duration_subsec_nanos(interval)) {
                Err(ArmError::OutOfRange)
            } else {
                Ok(periodic(duration_secs(interval), duration_subsec_nanos(interval)))
            }),
            final(self).active() == (old(self).active() || r is Ok),
    {
        if self.active {
            return Err(ArmError::AlreadyActive);
        }
        match ticks(whole_secs(&interval), subsec_nanos(&interval)) {
            Some(ticks) => match period(ticks) {
                Some(millis) => Ok(self.init(-ticks, millis)),
                None => Err(ArmError::OutOfRange),
            },
            None => Err(ArmError::OutOfRange),
        }
    }

    /// Marks the timer armed and builds its setting: due at `start`, then
    /// every `repeat` milliseconds, or never again where that is zero.
    fn init(&mut self, start: i64, repeat: u32) -> (setting: TimerSetting)
        requires
            !old(self).active(),
        ensures
            final(self).active(),
            final(self).id() == old(self).id(),
            setting == (TimerSetting { due_time: filetime_of(start), period: repeat }),
    {
        self.active = true;
        TimerSetting { due_time: filetime(start), period: repeat }
    }

    /// Arms the timer as `request` asks.
    pub fn arm(&mut self, request: ArmRequest) -> (r: Result<TimerSetting, ArmError>)
        ensures
            final(self).id() == old(self).id(),
            final(self).active() == (old(self).active() || r is Ok),
            r == (match request {
                ArmRequest::Once(d) => if old(self).active() {
                    Err::<TimerSetting, ArmError>(ArmError::AlreadyActive)
                } else if !fits(duration_secs(d), duration_subsec_nanos(d)) {
                    Err(ArmError::OutOfRange)
                } else {
                    Ok(one_shot(duration_secs(d), duration_subsec_nanos(d)))
                },
                ArmRequest::Repeating(d) => if old(self).active() {
                    Err::<TimerSetting, ArmError>(ArmError::AlreadyActive)
                } else if !fits_period(duration_secs(d), duration_subsec_nanos(d)) {
                    Err(ArmError::OutOfRange)
                } else {
                    Ok(periodic(duration_secs(d), duration_subsec_nanos(d)))
                },
            }),
    {
        match request {
            ArmRequest::Once(d) => self.init_delay(d),
            ArmRequest::Repeating(d) => self.init_interval(d),
        }
    }

    /// The OS calls that end the timer, in order: the pending expiry is
    /// cancelled, the caller waits for a callback in flight, and only then is
    /// the timer closed. After the last step no callback can run.
    pub fn teardown(&self) -> (steps: Vec<TeardownStep>)
        ensures
            steps@ == seq![
                TeardownStep::Disarm,
                TeardownStep::WaitForCallbacks,
                TeardownStep::Release,
            ],
    {
        let mut steps: Vec<TeardownStep> = Vec::new();
        steps.push(TeardownStep::Disarm);
        steps.push(TeardownStep::WaitForCallbacks);
        steps.push(TeardownStep::Release);
        steps
    }
}

} // verus!
