//! Why the order of operations on the completion cell is right.
//!
//! The cell's two fields are atomics that another thread writes, so the
//! executable code can promise nothing of what it reads from them. This
//! module reasons about them one level up: it pictures the cell as a value
//! that changes one atomic operation at a time, in some total order, and
//! proves what the timers rely on. `crate::state` performs the operations in
//! the order that the proofs assume.

use crate::delay::{delay_step, DelayState};
use crate::interval::{interval_step, IntervalState};
use std::time::Duration;
use std::time::Instant;
use vstd::prelude::*;

verus! {

/// The completion cell between two atomic operations. Wakers are told apart
/// by a number.
pub struct CellModel {
    /// The expiry flag.
    pub expired: bool,
    /// The waker in the slot, if there is one.
    pub waker: Option<nat>,
}

/// One atomic operation on the cell.
pub enum CellOp {
    /// The polling side stores a waker in the slot, over what was there.
    Register(nat),
    /// The polling side reads the flag.
    Check,
    /// The polling side reads the flag and clears it.
    Take,
    /// The callback sets the flag.
    Expire,
    /// The callback takes the waker out of the slot and wakes it.
    Wake,
}

/// What has happened to a cell so far.
pub struct Run {
    pub cell: CellModel,
    /// A `Check` or `Take` has found the flag set.
    pub seen: bool,
    /// The wakers that a `Wake` has woken.
    pub woken: Set<nat>,
}

/// A cell as it is made: not expired, the slot empty.
pub open spec fn fresh() -> CellModel {
    CellModel { expired: false, waker: None }
}

/// The effect of one operation.
pub open spec fn apply(r: Run, op: CellOp) -> Run {
    match op {
        CellOp::Register(w) => Run {
            cell: CellModel { expired: r.cell.expired, waker: Some(w) },
            ..r
        },
        CellOp::Check => Run { seen: r.seen || r.cell.expired, ..r },
        CellOp::Take => Run {
            cell: CellModel { expired: false, waker: r.cell.waker },
            seen: r.seen || r.cell.expired,
            ..r
        },
        CellOp::Expire => Run { cell: CellModel { expired: true, waker: r.cell.waker }, ..r },
        CellOp::Wake => match r.cell.waker {
            Some(w) => Run {
                cell: CellModel { expired: r.cell.expired, waker: None },
                woken: r.woken.insert(w),
                ..r
            },
            None => r,
        },
    }
}

/// The effect of the first `n` operations of `ops` on a cell `c` of which
/// nothing has been seen and which has woken nobody.
pub open spec fn run(c: CellModel, ops: Seq<CellOp>, n: nat) -> Run
    decreases n,
{
    if n == 0 {
        Run { cell: c, seen: false, woken: Set::empty() }
    } else {
        apply(run(c, ops, (n - 1) as nat), ops[n - 1])
    }
}

/// No wakeup is lost. A poll registers its waker and then checks the flag;
/// the callback sets the flag and then wakes. However the four operations
/// interleave (`ops` holds them at the positions `register < check` and
/// `expire < wake`), the poll sees the expiry or its waker is woken.
pub proof fn lemma_no_lost_wakeup(
    c: CellModel,
    w: nat,
    ops: Seq<CellOp>,
    register: int,
    check: int,
    expire: int,
    wake: int,
)
    requires
        ops.len() == 4,
        0 <= register < check < 4,
        0 <= expire < wake < 4,
        register != expire,
        register != wake,
        check != expire,
        check != wake,
        ops[register] == CellOp::Register(w),
        ops[check] == CellOp::Check,
        ops[expire] == CellOp::Expire,
        ops[wake] == CellOp::Wake,
    ensures
        run(c, ops, 4).seen || run(c, ops, 4).woken.contains(w),
{
    reveal_with_fuel(run, 5);
}

/// The same holds of a poll that takes the flag, as an interval's does.
pub proof fn lemma_no_lost_tick(
    c: CellModel,
    w: nat,
    ops: Seq<CellOp>,
    register: int,
    take: int,
    expire: int,
    wake: int,
)
    requires
        ops.len() == 4,
        0 <= register < take < 4,
        0 <= expire < wake < 4,
        register != expire,
        register != wake,
        take != expire,
        take != wake,
        ops[register] == CellOp::Register(w),
        ops[take] == CellOp::Take,
        ops[expire] == CellOp::Expire,
        ops[wake] == CellOp::Wake,
    ensures
        run(c, ops, 4).seen || run(c, ops, 4).woken.contains(w),
{
    reveal_with_fuel(run, 5);
}

/// In the wrong order the wakeup can be lost: a poll that checks the flag
/// before it registers its waker may see nothing and never be woken.
pub proof fn lemma_check_before_register_loses(w: nat)
    ensures
        ({
            let ops = seq![CellOp::Check, CellOp::Expire, CellOp::Wake, CellOp::Register(w)];
            !run(fresh(), ops, 4).seen && !run(fresh(), ops, 4).woken.contains(w)
        }),
{
    reveal_with_fuel(run, 5);
}

/// A cell on which nothing has expired stays so through a poll of a delay,
/// and the poll is pending: a delay is ready only after an expiry.
pub proof fn lemma_unexpired_delay_is_pending(c: CellModel, w: nat, s: DelayState, delay: Duration)
    requires
        !c.expired,
        !s.terminated,
    ensures
        ({
            let ops = seq![CellOp::Register(w), CellOp::Check];
            let after = run(c, ops, 2);
            &&& !after.cell.expired
            &&& !after.seen
            &&& delay_step(s, delay, after.seen).1.poll is Pending
        }),
{
    reveal_with_fuel(run, 3);
}

/// A delay never clears the flag: once the callback has set it, every poll
/// of the armed delay finds it and is ready.
pub proof fn lemma_expired_delay_is_ready(c: CellModel, w: nat, s: DelayState, delay: Duration)
    requires
        c.expired,
        s.armed,
    ensures
        ({
            let ops = seq![CellOp::Register(w), CellOp::Check];
            let after = run(c, ops, 2);
            &&& after.cell.expired
            &&& delay_step(s, delay, after.seen).1.poll is Ready
        }),
{
    reveal_with_fuel(run, 3);
}

/// What an armed interval makes of a history of the cell: each entry of
/// `history` is an expiry (`true`) or a poll (`false`), `expired` is the flag
/// before it, and the result counts the polls that yield a tick. `at` stands
/// for the times that the ticks carry.
pub open spec fn ticks(expired: bool, history: Seq<bool>, period: Duration, at: Instant) -> nat
    decreases history.len(),
{
    if history.len() == 0 {
        0
    } else if history[0] {
        ticks(true, history.skip(1), period, at)
    } else {
        let taken = if expired {
            Some(at)
        } else {
            None
        };
        let tick: nat = if interval_step(IntervalState { armed: true }, period, taken).1.poll
            is Ready {
            1
        } else {
            0
        };
        tick + ticks(false, history.skip(1), period, at)
    }
}

/// The expiries in a history.
pub open spec fn expiries(history: Seq<bool>) -> nat
    decreases history.len(),
{
    if history.len() == 0 {
        0
    } else {
        (if history[0] {
            1nat
        } else {
            0nat
        }) + expiries(history.skip(1))
    }
}

/// No expiry is observed twice: an interval yields at most one tick for each
/// expiry, counting one that was pending at the start.
pub proof fn lemma_ticks_are_distinct_expiries(
    expired: bool,
    history: Seq<bool>,
    period: Duration,
    at: Instant,
)
    ensures
        ticks(expired, history, period, at) <= expiries(history) + (if expired {
            1nat
        } else {
            0nat
        }),
    decreases history.len(),
{
    if history.len() > 0 {
        if history[0] {
            lemma_ticks_are_distinct_expiries(true, history.skip(1), period, at);
        } else {
            lemma_ticks_are_distinct_expiries(false, history.skip(1), period, at);
        }
    }
}

/// Expiries are not queued: any number of them before a poll make one tick,
/// and the poll after it, with no expiry between, makes none.
pub proof fn lemma_expiries_collapse(expired: bool, n: nat, period: Duration, at: Instant)
    requires
        n > 0,
    ensures
        ticks(expired, Seq::new(n, |i: int| true).push(false).push(false), period, at) == 1,
    decreases n,
{
    let history = Seq::new(n, |i: int| true).push(false).push(false);
    if n == 1 {
        assert(history.skip(1) =~= seq![false, false]);
        assert(history.skip(1).skip(1) =~= seq![false]);
        assert(history.skip(1).skip(1).skip(1) =~= Seq::<bool>::empty());
        reveal_with_fuel(ticks, 4);
    } else {
        assert(history.skip(1) =~= Seq::new((n - 1) as nat, |i: int| true).push(false).push(false));
        lemma_expiries_collapse(true, (n - 1) as nat, period, at);
    }
}

} // verus!
