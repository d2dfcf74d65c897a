//! What each backend arms its timer with, and how it ends it.

use futures_native_timers::sys::{linux, macos, windows};
use futures_native_timers::{ArmError, ArmRequest, TeardownStep};
use std::time::Duration;

const ZERO: linux::TimeSpec = linux::TimeSpec { tv_sec: 0, tv_nsec: 0 };

// ---- POSIX ----

#[test]
fn linux_span_is_seconds_and_nanoseconds() {
    assert_eq!(linux::span(3, 7), Some(linux::TimeSpec { tv_sec: 3, tv_nsec: 7 }));
    assert_eq!(linux::span(1, 0), Some(linux::TimeSpec { tv_sec: 1, tv_nsec: 0 }));
    assert_eq!(
        linux::span(0, 999_999_999),
        Some(linux::TimeSpec { tv_sec: 0, tv_nsec: 999_999_999 })
    );
}

#[test]
fn linux_empty_span_is_one_nanosecond() {
    assert_eq!(linux::span(0, 0), Some(linux::TimeSpec { tv_sec: 0, tv_nsec: 1 }));
}

#[test]
fn linux_span_limits() {
    assert_eq!(
        linux::span(i64::MAX as u64, 5),
        Some(linux::TimeSpec { tv_sec: i64::MAX, tv_nsec: 5 })
    );
    assert_eq!(linux::span(i64::MAX as u64 + 1, 0), None);
    assert_eq!(linux::span(u64::MAX, 0), None);
    assert_eq!(linux::span(1, 1_000_000_000), None);
}

#[test]
fn linux_new_timer_is_not_active() {
    let timer = linux::NativeTimer::new(42);
    assert!(!timer.is_active());
    assert_eq!(timer.raw(), 42);
}

#[test]
fn linux_init_delay_arms_a_single_expiry() {
    let mut timer = linux::NativeTimer::new(1);
    let setting = timer.init_delay(Duration::new(3, 7));
    assert_eq!(
        setting,
        Ok(linux::ITimerSpec {
            it_interval: ZERO,
            it_value: linux::TimeSpec { tv_sec: 3, tv_nsec: 7 },
        })
    );
    assert!(timer.is_active());
    assert_eq!(timer.raw(), 1);
}

#[test]
fn linux_init_interval_repeats_at_the_same_span() {
    let mut timer = linux::NativeTimer::new(1);
    let every = linux::TimeSpec { tv_sec: 0, tv_nsec: 99_000_000 };
    assert_eq!(
        timer.init_interval(Duration::from_millis(99)),
        Ok(linux::ITimerSpec { it_interval: every, it_value: every })
    );
    assert!(timer.is_active());
}

#[test]
fn linux_zero_duration_expires_at_once() {
    let shortest = linux::TimeSpec { tv_sec: 0, tv_nsec: 1 };
    let mut once = linux::NativeTimer::new(1);
    assert_eq!(
        once.init_delay(Duration::new(0, 0)),
        Ok(linux::ITimerSpec { it_interval: ZERO, it_value: shortest })
    );
    let mut every = linux::NativeTimer::new(2);
    assert_eq!(
        every.init_interval(Duration::new(0, 0)),
        Ok(linux::ITimerSpec { it_interval: shortest, it_value: shortest })
    );
}

#[test]
fn linux_arms_once_only() {
    let mut timer = linux::NativeTimer::new(1);
    assert!(timer.init_delay(Duration::from_secs(1)).is_ok());
    assert_eq!(timer.init_delay(Duration::from_secs(1)), Err(ArmError::AlreadyActive));
    assert_eq!(timer.init_interval(Duration::from_secs(1)), Err(ArmError::AlreadyActive));
    assert_eq!(
        timer.arm(ArmRequest::Once(Duration::from_secs(1))),
        Err(ArmError::AlreadyActive)
    );
    assert!(timer.is_active());
}

#[test]
fn linux_rejects_what_does_not_fit_and_stays_inactive() {
    let too_long = Duration::new(u64::MAX, 0);
    let mut timer = linux::NativeTimer::new(1);
    assert_eq!(timer.init_delay(too_long), Err(ArmError::OutOfRange));
    assert!(!timer.is_active());
    assert_eq!(timer.init_interval(too_long), Err(ArmError::OutOfRange));
    assert!(!timer.is_active());
    // still free to be armed
    assert!(timer.init_delay(Duration::new(i64::MAX as u64, 0)).is_ok());
    assert!(timer.is_active());
}

#[test]
fn linux_arm_follows_the_request() {
    let d = Duration::new(1, 250);
    let span = linux::TimeSpec { tv_sec: 1, tv_nsec: 250 };
    let mut once = linux::NativeTimer::new(1);
    assert_eq!(
        once.arm(ArmRequest::Once(d)),
        Ok(linux::ITimerSpec { it_interval: ZERO, it_value: span })
    );
    let mut every = linux::NativeTimer::new(2);
    assert_eq!(
        every.arm(ArmRequest::Repeating(d)),
        Ok(linux::ITimerSpec { it_interval: span, it_value: span })
    );
}

#[test]
fn linux_teardown_deletes_the_timer() {
    let mut timer = linux::NativeTimer::new(1);
    assert_eq!(timer.teardown(), vec![TeardownStep::Release]);
    timer.init_delay(Duration::from_secs(1)).unwrap();
    assert_eq!(timer.teardown(), vec![TeardownStep::Release]);
}

#[test]
fn linux_timer_signal_is_a_real_time_signal() {
    assert_eq!(linux::TIMER_SIGNAL, 40);
}

// ---- Windows ----

#[test]
fn windows_ticks_are_hundreds_of_nanoseconds() {
    assert_eq!(windows::ticks(0, 0), Some(0));
    assert_eq!(windows::ticks(1, 0), Some(10_000_000));
    assert_eq!(windows::ticks(1, 150), Some(10_000_001));
    assert_eq!(windows::ticks(0, 99), Some(0));
    assert_eq!(windows::ticks(0, 99_000_000), Some(990_000));
    assert_eq!(windows::ticks(2, 999_999_999), Some(29_999_999));
}

#[test]
fn windows_ticks_limits() {
    assert_eq!(windows::ticks(922_337_203_685, 477_580_700), Some(i64::MAX));
    assert_eq!(windows::ticks(922_337_203_685, 477_580_799), Some(i64::MAX));
    assert_eq!(windows::ticks(922_337_203_685, 477_580_800), None);
    assert_eq!(windows::ticks(922_337_203_686, 0), None);
    assert_eq!(windows::ticks(u64::MAX, 0), None);
    assert_eq!(windows::ticks(0, 1_000_000_000), None);
}

#[test]
fn windows_period_is_whole_milliseconds() {
    assert_eq!(windows::period(990_000), Some(99));
    assert_eq!(windows::period(10_000), Some(1));
    assert_eq!(windows::period(19_999), Some(1));
    assert_eq!(windows::period(20_000), Some(2));
}

#[test]
fn windows_period_is_never_zero() {
    assert_eq!(windows::period(0), Some(1));
    assert_eq!(windows::period(9_999), Some(1));
}

#[test]
fn windows_period_limits() {
    assert_eq!(windows::period(42_949_672_950_000), Some(u32::MAX));
    assert_eq!(windows::period(42_949_672_959_999), Some(u32::MAX));
    assert_eq!(windows::period(42_949_672_960_000), None);
    assert_eq!(windows::period(i64::MAX), None);
}

#[test]
fn windows_period_of_a_negative_span_is_none() {
    assert_eq!(windows::period(-1), None);
    assert_eq!(windows::period(-10_000), None);
    assert_eq!(windows::period(i64::MIN), None);
}

#[test]
fn windows_filetime_holds_the_bits_low_half_first() {
    assert_eq!(windows::filetime(0), windows::FileTime { low: 0, high: 0 });
    assert_eq!(windows::filetime(1), windows::FileTime { low: 1, high: 0 });
    assert_eq!(windows::filetime(0x1_0000_0002), windows::FileTime { low: 2, high: 1 });
    assert_eq!(
        windows::filetime(-1),
        windows::FileTime { low: 0xffff_ffff, high: 0xffff_ffff }
    );
    assert_eq!(
        windows::filetime(-10_000_000),
        windows::FileTime { low: 0xff67_6980, high: 0xffff_ffff }
    );
    assert_eq!(
        windows::filetime(i64::MAX),
        windows::FileTime { low: 0xffff_ffff, high: 0x7fff_ffff }
    );
    assert_eq!(windows::filetime(i64::MIN), windows::FileTime { low: 0, high: 0x8000_0000 });
}

#[test]
fn windows_filetime_agrees_with_the_machine() {
    for ticks in [0i64, 1, -1, -990_000, 123_456_789_012, -123_456_789_012, i64::MAX, i64::MIN] {
        let t = windows::filetime(ticks);
        let bits = ((t.high as u64) << 32) | t.low as u64;
        assert_eq!(bits, ticks as u64);
    }
}

#[test]
fn windows_init_delay_is_due_a_negative_number_of_ticks_from_now() {
    let mut timer = windows::NativeTimer::new(9);
    assert_eq!(
        timer.init_delay(Duration::from_secs(1)),
        Ok(windows::TimerSetting { due_time: windows::filetime(-10_000_000), period: 0 })
    );
    assert!(timer.is_active());
    assert_eq!(timer.raw(), 9);
}

#[test]
fn windows_init_interval_repeats_in_milliseconds() {
    let mut timer = windows::NativeTimer::new(9);
    assert_eq!(
        timer.init_interval(Duration::from_millis(99)),
        Ok(windows::TimerSetting {
            due_time: windows::FileTime { low: 0xfff0_e4d0, high: 0xffff_ffff },
            period: 99,
        })
    );
    assert!(timer.is_active());
}

#[test]
fn windows_short_interval_repeats_every_millisecond() {
    let mut timer = windows::NativeTimer::new(9);
    assert_eq!(
        timer.init_interval(Duration::from_micros(100)),
        Ok(windows::TimerSetting { due_time: windows::filetime(-1_000), period: 1 })
    );
    let mut zero = windows::NativeTimer::new(10);
    assert_eq!(
        zero.init_interval(Duration::new(0, 0)),
        Ok(windows::TimerSetting { due_time: windows::FileTime { low: 0, high: 0 }, period: 1 })
    );
}

#[test]
fn windows_zero_delay_is_due_now() {
    let mut timer = windows::NativeTimer::new(9);
    assert_eq!(
        timer.init_delay(Duration::new(0, 0)),
        Ok(windows::TimerSetting { due_time: windows::FileTime { low: 0, high: 0 }, period: 0 })
    );
}

#[test]
fn windows_arms_once_only() {
    let mut timer = windows::NativeTimer::new(9);
    assert!(timer.init_interval(Duration::from_secs(1)).is_ok());
    assert_eq!(timer.init_delay(Duration::from_secs(1)), Err(ArmError::AlreadyActive));
    assert_eq!(timer.init_interval(Duration::from_secs(1)), Err(ArmError::AlreadyActive));
}

#[test]
fn windows_rejects_what_does_not_fit_and_stays_inactive() {
    let mut timer = windows::NativeTimer::new(9);
    assert_eq!(timer.init_delay(Duration::new(922_337_203_686, 0)), Err(ArmError::OutOfRange));
    assert!(!timer.is_active());
    // fits as a due time, but not as a period of 32 bits of milliseconds
    let fifty_days = Duration::from_secs(4_294_968);
    assert_eq!(timer.init_interval(fifty_days), Err(ArmError::OutOfRange));
    assert!(!timer.is_active());
    assert!(timer.init_delay(fifty_days).is_ok());
    assert!(timer.is_active());
}

#[test]
fn windows_arm_follows_the_request() {
    let d = Duration::from_millis(250);
    let mut once = windows::NativeTimer::new(1);
    assert_eq!(
        once.arm(ArmRequest::Once(d)),
        Ok(windows::TimerSetting { due_time: windows::filetime(-2_500_000), period: 0 })
    );
    let mut every = windows::NativeTimer::new(2);
    assert_eq!(
        every.arm(ArmRequest::Repeating(d)),
        Ok(windows::TimerSetting { due_time: windows::filetime(-2_500_000), period: 250 })
    );
}

#[test]
fn windows_teardown_waits_before_it_closes() {
    let timer = windows::NativeTimer::new(9);
    assert_eq!(
        timer.teardown(),
        vec![TeardownStep::Disarm, TeardownStep::WaitForCallbacks, TeardownStep::Release]
    );
}

// ---- macOS ----

#[test]
fn macos_total_nanos() {
    assert_eq!(macos::total_nanos(0, 0), Some(0));
    assert_eq!(macos::total_nanos(1, 5), Some(1_000_000_005));
    assert_eq!(macos::total_nanos(0, 99_000_000), Some(99_000_000));
}

#[test]
fn macos_total_nanos_limits() {
    assert_eq!(macos::total_nanos(9_223_372_036, 854_775_807), Some(i64::MAX));
    assert_eq!(macos::total_nanos(9_223_372_036, 854_775_808), None);
    assert_eq!(macos::total_nanos(9_223_372_037, 0), None);
    assert_eq!(macos::total_nanos(u64::MAX, 0), None);
    assert_eq!(macos::total_nanos(0, 1_000_000_000), None);
}

#[test]
fn macos_init_delay_arms_without_an_interval() {
    let mut timer = macos::NativeTimer::new(5);
    assert_eq!(
        timer.init_delay(Duration::new(1, 5)),
        Ok(macos::TimerSetting { start: 1_000_000_005, interval: 0, leeway: 0 })
    );
    assert!(timer.is_active());
    assert_eq!(timer.raw(), 5);
}

#[test]
fn macos_init_interval_repeats_at_the_same_span() {
    let mut timer = macos::NativeTimer::new(5);
    assert_eq!(
        timer.init_interval(Duration::from_millis(99)),
        Ok(macos::TimerSetting { start: 99_000_000, interval: 99_000_000, leeway: 0 })
    );
    assert!(timer.is_active());
}

#[test]
fn macos_arms_once_only() {
    let mut timer = macos::NativeTimer::new(5);
    assert!(timer.init_delay(Duration::from_secs(1)).is_ok());
    assert_eq!(timer.init_delay(Duration::from_secs(1)), Err(ArmError::AlreadyActive));
    assert_eq!(timer.init_interval(Duration::from_secs(1)), Err(ArmError::AlreadyActive));
}

#[test]
fn macos_rejects_what_does_not_fit_and_stays_inactive() {
    let mut timer = macos::NativeTimer::new(5);
    let too_long = Duration::new(9_223_372_037, 0);
    assert_eq!(timer.init_delay(too_long), Err(ArmError::OutOfRange));
    assert_eq!(timer.init_interval(too_long), Err(ArmError::OutOfRange));
    assert!(!timer.is_active());
    assert_eq!(
        timer.init_delay(Duration::new(9_223_372_036, 854_775_807)),
        Ok(macos::TimerSetting { start: i64::MAX, interval: 0, leeway: 0 })
    );
}

#[test]
fn macos_arm_follows_the_request() {
    let d = Duration::from_micros(3);
    let mut once = macos::NativeTimer::new(1);
    assert_eq!(
        once.arm(ArmRequest::Once(d)),
        Ok(macos::TimerSetting { start: 3_000, interval: 0, leeway: 0 })
    );
    let mut every = macos::NativeTimer::new(2);
    assert_eq!(
        every.arm(ArmRequest::Repeating(d)),
        Ok(macos::TimerSetting { start: 3_000, interval: 3_000, leeway: 0 })
    );
}

#[test]
fn macos_teardown_resumes_a_source_that_was_never_armed() {
    let timer = macos::NativeTimer::new(5);
    assert_eq!(timer.teardown(), vec![TeardownStep::Resume, TeardownStep::Release]);
}

#[test]
fn macos_teardown_releases_an_armed_source() {
    let mut timer = macos::NativeTimer::new(5);
    timer.init_delay(Duration::from_secs(1)).unwrap();
    assert_eq!(timer.teardown(), vec![TeardownStep::Release]);
}

#[test]
fn macos_failed_arming_leaves_the_source_suspended() {
    let mut timer = macos::NativeTimer::new(5);
    assert!(timer.init_delay(Duration::new(u64::MAX, 0)).is_err());
    assert_eq!(timer.teardown(), vec![TeardownStep::Resume, TeardownStep::Release]);
}
