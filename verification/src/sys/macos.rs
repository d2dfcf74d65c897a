//! Dispatch timer sources, armed in nanoseconds.

use crate::sys::{ArmError, ArmRequest, TeardownStep};
use crate::time::{
    duration_nanos, duration_secs, duration_subsec_nanos, subsec_nanos, whole_secs, NANOS_PER_SEC,
};
use std::time::Duration;
use vstd::prelude::*;

verus! {

/// The values that `dispatch_source_set_timer` is called with.
#[derive(Clone, Copy, Debug, PartialEq, Eq)]
pub struct TimerSetting {
    /// Nanoseconds from now until the first expiry.
    pub start: i64,
    /// Nanoseconds between expiries; zero where none was asked for.
    pub interval: u64,
    /// Nanoseconds by which the OS may defer an expiry.
    pub leeway: u64,
}

/// The length in nanoseconds of `secs` seconds and `nanos` nanoseconds.
pub open spec fn nanos_of(secs: u64, nanos: u32) -> int {
    secs * 1_000_000_000 + nanos
}

/// Whether a span can be armed: its nanoseconds fit a signed 64-bit delta.
pub open spec fn fits(secs: u64, nanos: u32) -> bool {
    nanos < NANOS_PER_SEC && nanos_of(secs, nanos) <= i64::MAX
}

/// The setting for a single expiry after the given span.
pub open spec fn one_shot(secs: u64, nanos: u32) -> TimerSetting {
    TimerSetting { start: nanos_of(secs, nanos) as i64, interval: 0, leeway: 0 }
}

/// The setting for an expiry after the given span and every such span again.
pub open spec fn periodic(secs: u64, nanos: u32) -> TimerSetting {
    TimerSetting {
        start: nanos_of(secs, nanos) as i64,
        interval: nanos_of(secs, nanos) as u64,
        leeway: 0,
    }
}

/// The OS calls that end a timer source which was armed, or was not.
pub open spec fn teardown_of(active: bool) -> Seq<TeardownStep> {
    if active {
        seq![TeardownStep::Release]
    } else {
        seq![TeardownStep::Resume, TeardownStep::Release]
    }
}

/// The length of a span in nanoseconds, or `None` where it does not fit a
/// signed 64-bit delta.
pub fn total_nanos(secs: u64, nanos: u32) -> (n: Option<i64>)
    ensures
        n == (if fits(secs, nanos) {
            Some(nanos_of(secs, nanos) as i64)
        } else {
            None
        }),
{
    if nanos >= NANOS_PER_SEC {
        return None;
    }
    // i64::MAX / NANOS_PER_SEC, and what is left of i64::MAX beyond it
    if secs > 9_223_372_036 || (secs == 9_223_372_036 && nanos > 854_775_807) {
        return None;
    }
    let total: u64 = secs * 1_000_000_000 + nanos as u64;
    Some(total as i64)
}

/// The bookkeeping of one dispatch timer source.
#[derive(Debug)]
pub struct NativeTimer {
    timer: usize,
    active: bool,
}

impl NativeTimer {
    /// The address of the dispatch source.
    pub closed spec fn id(&self) -> usize {
        self.timer
    }

    /// Whether the source was armed, and with that resumed.
    pub closed spec fn active(&self) -> bool {
        self.active
    }

    /// Takes over a source that the OS has just created: suspended, with its
    /// event handler installed, and not armed.
    pub fn new(timer: usize) -> (t: NativeTimer)
        ensures
            t.id() == timer,
            !t.active(),
    {
        NativeTimer { timer, active: false }
    }

    /// The address of the dispatch source, for the calls that arm and release it.
    pub fn raw(&self) -> (id: usize)
        ensures
            id == self.id(),
    {
        self.timer
    }

    pub fn is_active(&self) -> (b: bool)
        ensures
            b == self.active(),
    {
        self.active
    }

    /// Arms the source for a single expiry `delay` from now and returns the
    /// values to hand to `dispatch_source_set_timer` before the source is
    /// resumed.
    pub fn init_delay(&mut self, delay: Duration) -> (r: Result<TimerSetting, ArmError>)
        ensures
            final(self).id() == old(self).id(),
            r == (if old(self).active() {
                Err::<TimerSetting, ArmError>(ArmError::AlreadyActive)
            } else if !fits(duration_secs(delay), duration_subsec_nanos(delay)) {
                Err(ArmError::OutOfRange)
            } else {
                Ok(one_shot(duration_secs(delay), duration_subsec_nanos(delay)))
            }),
            final(self).active() == (old(self).active() || r is Ok),
            r matches Ok(setting) ==> setting.start == duration_nanos(delay),
    {
        if self.active {
            return Err(ArmError::AlreadyActive);
        }
        match total_nanos(whole_secs(&delay), subsec_nanos(&delay)) {
            Some(nanos) => {
                self.active = true;
                Ok(TimerSetting { start: nanos, interval: 0, leeway: 0 })
            },
            None => Err(ArmError::OutOfRange),
        }
    }

    /// Arms the source for an expiry every `interval`, the first one
    /// `interval` from now, and returns the values to hand to
    /// `dispatch_source_set_timer` before the source is resumed.
    pub fn init_interval(&mut self, interval: Duration) -> (r: Result<TimerSetting, ArmError>)
        ensures
            final(self).id() == old(self).id(),
            r == (if old(self).active() {
                Err::<TimerSetting, ArmError>(ArmError::AlreadyActive)
            } else if !fits(duration_secs(interval), duration_subsec_nanos(interval)) {
                Err(ArmError::OutOfRange)
            } else {
                Ok(periodic(duration_secs(interval), duration_subsec_nanos(interval)))
            }),
            final(self).active() == (old(self).active() || r is Ok),
            r matches Ok(setting) ==> setting.start == duration_nanos(interval)
                && setting.interval == duration_nanos(interval),
    {
        if self.active {
            return Err(ArmError::AlreadyActive);
        }
        match total_nanos(whole_secs(&interval), subsec_nanos(&interval)) {
            Some(nanos) => {
                self.active = true;
                Ok(TimerSetting { start: nanos, interval: nanos as u64, leeway: 0 })
            },
            None => Err(ArmError::OutOfRange),
        }
    }

    /// Arms the source as `request` asks.
    pub fn arm(&mut self, request: ArmRequest) -> (r: Result<TimerSetting, ArmError>)
        ensures
            final(self).id() == old(self).id(),
            final(self).active() == (old(self).active() || r is Ok),
            r == (match request {
                ArmRequest::Once(d) => if old(self).active() {
                    Err::<TimerSetting, ArmError>(ArmError::AlreadyActive)
                } else if !fits(duration_secs(d), duration_subsec_nanos(d)) {
                    Err(ArmError::OutOfRange)
                } else {
                    Ok(one_shot(duration_secs(d), duration_subsec_nanos(d)))
                },
                ArmRequest::Repeating(d) => if old(self).active() {
                    Err::<TimerSetting, ArmError>(ArmError::AlreadyActive)
                } else if !fits(duration_secs(d), duration_subsec_nanos(d)) {
                    Err(ArmError::OutOfRange)
                } else {
                    Ok(periodic(duration_secs(d), duration_subsec_nanos(d)))
                },
            }),
    {
        match request {
            ArmRequest::Once(d) => self.init_delay(d),
            ArmRequest::Repeating(d) => self.init_interval(d),
        }
    }

    /// The OS calls that end the source, in order. A dispatch object must not
    /// be suspended when its last reference is released, and a source starts
    /// out suspended: one that was never armed is resumed first. The release
    /// does not wait for a handler that is running.
    pub fn teardown(&self) -> (steps: Vec<TeardownStep>)
        ensures
            steps@ == teardown_of(self.active()),
    {
        let mut steps: Vec<TeardownStep> = Vec::new();
        if !self.active {
            steps.push(TeardownStep::Resume);
        }
        steps.push(TeardownStep::Release);
        steps
    }
}

} // verus!
