//! POSIX per-process interval timers, armed in seconds and nanoseconds.

use crate::sys::{ArmError, ArmRequest, TeardownStep};
use crate::time::{duration_secs, duration_subsec_nanos, subsec_nanos, whole_secs, NANOS_PER_SEC};
use std::time::Duration;
use vstd::prelude::*;

verus! {

/// The real-time signal that carries timer expiries to the creating thread.
pub const TIMER_SIGNAL: i32 = 40;

/// A span of time as `timer_settime` takes it.
#[derive(Clone, Copy, Debug, PartialEq, Eq)]
pub struct TimeSpec {
    pub tv_sec: i64,
    pub tv_nsec: i64,
}

/// The value that `timer_settime` is called with.
#[derive(Clone, Copy, Debug, PartialEq, Eq)]
pub struct ITimerSpec {
    /// The period after the first expiry; zero for a single expiry.
    pub it_interval: TimeSpec,
    /// The time until the first expiry.
    pub it_value: TimeSpec,
}

/// Whether a span of `secs` seconds and `nanos` nanoseconds can be written
/// as a `TimeSpec`.
pub open spec fn fits(secs: u64, nanos: u32) -> bool {
    secs <= i64::MAX && nanos < NANOS_PER_SEC
}

/// The span that the OS is given for `secs` seconds and `nanos` nanoseconds.
///
/// An all-zero value would disarm the timer instead of letting it expire at
/// once, so an empty span is armed as one nanosecond.
pub open spec fn span_of(secs: u64, nanos: u32) -> TimeSpec {
    if secs == 0 && nanos == 0 {
        TimeSpec { tv_sec: 0, tv_nsec: 1 }
    } else {
        TimeSpec { tv_sec: secs as i64, tv_nsec: nanos as i64 }
    }
}

/// The setting for a single expiry after the given span.
pub open spec fn one_shot(secs: u64, nanos: u32) -> ITimerSpec {
    ITimerSpec { it_interval: TimeSpec { tv_sec: 0, tv_nsec: 0 }, it_value: span_of(secs, nanos) }
}

/// The setting for an expiry after the given span and every such span again.
pub open spec fn periodic(secs: u64, nanos: u32) -> ITimerSpec {
    ITimerSpec { it_interval: span_of(secs, nanos), it_value: span_of(secs, nanos) }
}

/// Writes a span of `secs` seconds and `nanos` nanoseconds as a `TimeSpec`,
/// or returns `None` where the seconds exceed `i64` or the nanoseconds reach
/// a full second.
pub fn span(secs: u64, nanos: u32) -> (ts: Option<TimeSpec>)
    ensures
        ts == (if fits(secs, nanos) {
            Some(span_of(secs, nanos))
        } else {
            None
        }),
{
    if secs > 0x7fff_ffff_ffff_ffff || nanos >= NANOS_PER_SEC {
        None
    } else if secs == 0 && nanos == 0 {
        Some(TimeSpec { tv_sec: 0, tv_nsec: 1 })
    } else {
        Some(TimeSpec { tv_sec: secs as i64, tv_nsec: nanos as i64 })
    }
}

/// The bookkeeping of one POSIX timer.
#[derive(Debug)]
pub struct NativeTimer {
    inner: usize,
    active: bool,
}

impl NativeTimer {
    /// The OS timer id.
    pub closed spec fn id(&self) -> usize {
        self.inner
    }

    /// Whether the timer was armed.
    pub closed spec fn active(&self) -> bool {
        self.active
    }

    /// Takes over a timer that the OS has just created and that is not armed.
    pub fn new(timer: usize) -> (t: NativeTimer)
        ensures
            t.id() == timer,
            !t.active(),
    {
        NativeTimer { inner: timer, active: false }
    }

    /// The OS timer id, for the calls that arm and delete the timer.
    pub fn raw(&self) -> (id: usize)
        ensures
            id == self.id(),
    {
        self.inner
    }

    pub fn is_active(&self) -> (b: bool)
        ensures
            b == self.active(),
    {
        self.active
    }

    /// Arms the timer for a single expiry `delay` from now and returns the
    /// setting to hand to `timer_settime`.
    pub fn init_delay(&mut self, delay: Duration) -> (r: Result<ITimerSpec, ArmError>)
        ensures
            final(self).id() == old(self).id(),
            r == (if old(self).active() {
                Err::<ITimerSpec, ArmError>(ArmError::AlreadyActive)
            } else if !fits(duration_secs(delay), duration_subsec_nanos(delay)) {
                Err(ArmError::OutOfRange)
            } else {
                Ok(one_shot(duration_secs(delay), duration_subsec_nanos(delay)))
            }),
            final(self).active() == (old(self).active() || r is Ok),
    {
        if self.active {
            return Err(ArmError::AlreadyActive);
        }
        match span(whole_secs(&delay), subsec_nanos(&delay)) {
            Some(ticks) => Ok(self.init(ticks, None)),
            None => Err(ArmError::OutOfRange),
        }
    }

    /// Arms the timer for an expiry every `interval`, the first one `interval`
    /// from now, and returns the setting to hand to `timer_settime`.
    pub fn init_interval(&mut self, interval: Duration) -> (r: Result<ITimerSpec, ArmError>)
        ensures
            final(self).id() == old(self).id(),
            r == (if old(self).active() {
                Err::<ITimerSpec, ArmError>(ArmError::AlreadyActive)
            } else if !fits(duration_secs(interval), duration_subsec_nanos(interval)) {
                Err(ArmError::OutOfRange)
            } else {
                Ok(periodic(duration_secs(interval), duration_subsec_nanos(interval)))
            }),
            final(self).active() == (old(self).active() || r is Ok),
    {
        if self.active {
            return Err(ArmError::AlreadyActive);
        }
        match span(whole_secs(&interval), subsec_nanos(&interval)) {
            Some(ticks) => Ok(self.init(ticks, Some(ticks))),
            None => Err(ArmError::OutOfRange),
        }
    }

    /// Marks the timer armed and builds its setting: first expiry after
    /// `start`, then every `repeat`, or never again without one.
    fn init(&mut self, start: TimeSpec, repeat: Option<TimeSpec>) -> (setting: ITimerSpec)
        requires
            !old(self).active(),
        ensures
            final(self).active(),
            final(self).id() == old(self).id(),
            setting.it_value == start,
            setting.it_interval == (match repeat {
                Some(period) => period,
                None => TimeSpec { tv_sec: 0, tv_nsec: 0 },
            }),
    {
        self.active = true;
        let repeat = match repeat {
            Some(period) => period,
            None => TimeSpec { tv_sec: 0, tv_nsec: 0 },
        };
        ITimerSpec { it_interval: repeat, it_value: start }
    }

    /// Arms the timer as `request` asks.
    pub fn arm(&mut self, request: ArmRequest) -> (r: Result<ITimerSpec, ArmError>)
        ensures
            final(self).id() == old(self).id(),
            final(self).active() == (old(self).active() || r is Ok),
            r == (match request {
                ArmRequest::Once(d) => if old(self).active() {
                    Err::<ITimerSpec, ArmError>(ArmError::AlreadyActive)
                } else if !fits(duration_secs(d), duration_subsec_nanos(d)) {
                    Err(ArmError::OutOfRange)
                } else {
                    Ok(one_shot(duration_secs(d), duration_subsec_nanos(d)))
                },
                ArmRequest::Repeating(d) => if old(self).active() {
                    Err::<ITimerSpec, ArmError>(ArmError::AlreadyActive)
                } else if !fits(duration_secs(d), duration_subsec_nanos(d)) {
                    Err(ArmError::OutOfRange)
                } else {
                    Ok(periodic(duration_secs(d), duration_subsec_nanos(d)))
                },
            }),
    {
        match request {
            ArmRequest::Once(d) => self.init_delay(d),
            ArmRequest::Repeating(d) => self.init_interval(d),
        }
    }

    /// The OS calls that end the timer: it is deleted, armed or not. A signal
    /// already queued when it is deleted may still be delivered.
    pub fn teardown(&self) -> (steps: Vec<TeardownStep>)
        ensures
            steps@ == seq![TeardownStep::Release],
    {
        let mut steps: Vec<TeardownStep> = Vec::new();
        steps.push(TeardownStep::Release);
        steps
    }
}

} // verus!
