//! Time-based accrual of a stream, with support for rate checkpoints.
//!
//! A stream accrues `rate_per_second` tokens per second from its last
//! checkpoint (`checkpointed_at`, initially the start time) on top of the
//! amount already locked in at that checkpoint (`checkpointed_amount`,
//! initially 0). Nothing accrues before the cliff, time is capped at the end
//! of the schedule, and the result never exceeds the deposit.
use vstd::prelude::*;

verus! {

/// The schedule and checkpoint data that accrual depends on.
#[derive(Clone, Copy, Debug, PartialEq, Eq, Structural)]
pub struct CheckpointState {
    /// Amount accrued under earlier rates up to `checkpointed_at`.
    pub checkpointed_amount: i128,
    /// Start of the current rate epoch.
    pub checkpointed_at: u64,
    /// No accrual is visible before this timestamp.
    pub cliff_time: u64,
    /// Accrual stops at this timestamp.
    pub end_time: u64,
    /// Upper bound of the accrued amount.
    pub deposit_amount: i128,
}

/// `a` clamped into the range `0..=hi` (upper bound first).
pub open spec fn clamp_to_deposit(a: int, hi: int) -> int {
    if a > hi {
        hi
    } else if a < 0 {
        0
    } else {
        a
    }
}

/// The time up to which the current epoch has accrued at `now`.
pub open spec fn capped_time(cp: CheckpointState, now: u64) -> int {
    if now < cp.end_time {
        now as int
    } else {
        cp.end_time as int
    }
}

/// Seconds elapsed in the current epoch at `now` (0 before the checkpoint).
pub open spec fn epoch_seconds(cp: CheckpointState, now: u64) -> int {
    if capped_time(cp, now) > cp.checkpointed_at {
        capped_time(cp, now) - cp.checkpointed_at
    } else {
        0
    }
}

pub open spec fn fits_i128(x: int) -> bool {
    i128::MIN <= x <= i128::MAX
}

/// The amount accrued at `now` under `rate_per_second`.
///
/// Before the cliff it is 0. Otherwise it is the checkpointed amount plus
/// `rate × seconds in the current epoch`, clamped to `0..=deposit`; when that
/// product or sum does not fit in an `i128`, the whole deposit has accrued.
pub open spec fn accrued_at(cp: CheckpointState, rate_per_second: i128, now: u64) -> int {
    if now < cp.cliff_time {
        0
    } else {
        let product = rate_per_second * epoch_seconds(cp, now);
        if !fits_i128(product) || !fits_i128(cp.checkpointed_amount + product) {
            cp.deposit_amount as int
        } else {
            clamp_to_deposit(cp.checkpointed_amount + product, cp.deposit_amount as int)
        }
    }
}

/// Computes the accrued amount at `now` (see [`accrued_at`]).
pub fn calculate_accrued_amount_checkpointed(
    cp: CheckpointState,
    rate_per_second: i128,
    now: u64,
) -> (r: i128)
    ensures
        r == accrued_at(cp, rate_per_second, now),
{
    if now < cp.cliff_time {
        return 0;
    }
    let capped = if now < cp.end_time {
        now
    } else {
        cp.end_time
    };
    let elapsed: u64 = if capped > cp.checkpointed_at {
        capped - cp.checkpointed_at
    } else {
        0
    };
    let total = match rate_per_second.checked_mul(elapsed as i128) {
        None => {
            return cp.deposit_amount;
        },
        Some(p) => match cp.checkpointed_amount.checked_add(p) {
            None => {
                return cp.deposit_amount;
            },
            Some(t) => t,
        },
    };
    if total > cp.deposit_amount {
        cp.deposit_amount
    } else if total < 0 {
        0
    } else {
        total
    }
}

/// Accrual stays within `0..=deposit` whenever the deposit is non-negative.
pub proof fn lemma_accrued_bounded(cp: CheckpointState, rate_per_second: i128, now: u64)
    requires
        cp.deposit_amount >= 0,
    ensures
        0 <= accrued_at(cp, rate_per_second, now) <= cp.deposit_amount,
{
}

/// Accrual never decreases as time advances, for a non-negative rate and
/// checkpointed amount.
pub proof fn lemma_accrued_monotonic(cp: CheckpointState, rate_per_second: i128, t1: u64, t2: u64)
    requires
        t1 <= t2,
        rate_per_second >= 0,
        cp.checkpointed_amount >= 0,
        cp.deposit_amount >= 0,
    ensures
        accrued_at(cp, rate_per_second, t1) <= accrued_at(cp, rate_per_second, t2),
{
    let e1 = epoch_seconds(cp, t1);
    let e2 = epoch_seconds(cp, t2);
    assert(e1 <= e2);
    assert(rate_per_second * e1 <= rate_per_second * e2) by (nonlinear_arith)
        requires
            e1 <= e2,
            rate_per_second >= 0,
            0 <= e1,
    ;
    assert(0 <= rate_per_second * e1) by (nonlinear_arith)
        requires
            rate_per_second >= 0,
            0 <= e1,
    ;
}

/// Moving the checkpoint to `now` (after the cliff) and raising the rate
/// never lowers the accrued amount, at any time.
pub proof fn lemma_rate_increase_from_checkpoint(
    cp: CheckpointState,
    old_rate: i128,
    new_rate: i128,
    now: u64,
    t: u64,
)
    requires
        0 < old_rate <= new_rate,
        cp.checkpointed_amount >= 0,
        cp.deposit_amount >= 0,
        cp.cliff_time <= now,
    ensures
        accrued_at(
            CheckpointState { checkpointed_amount: accrued_at(cp, old_rate, now) as i128, checkpointed_at: now, ..cp },
            new_rate,
            t,
        ) >= accrued_at(cp, old_rate, t),
{
    let a = accrued_at(cp, old_rate, now);
    lemma_accrued_bounded(cp, old_rate, now);
    lemma_accrued_bounded(cp, old_rate, t);
    let cp2 = CheckpointState { checkpointed_amount: a as i128, checkpointed_at: now, ..cp };
    if t < cp.cliff_time {
    } else if t <= now {
        assert(epoch_seconds(cp2, t) == 0);
        lemma_accrued_monotonic(cp, old_rate, t, now);
    } else if now >= cp.end_time {
        assert(epoch_seconds(cp2, t) == 0);
        assert(epoch_seconds(cp, t) == epoch_seconds(cp, now));
    } else {
        let d = capped_time(cp, t) - now;
        let e1n = epoch_seconds(cp, now);
        let e1t = epoch_seconds(cp, t);
        assert(d > 0);
        assert(epoch_seconds(cp2, t) == d);
        assert(e1t <= e1n + d);
        assert(0 <= e1n && 0 <= e1t);
        assert(old_rate * e1t <= old_rate * e1n + old_rate * d) by (nonlinear_arith)
            requires
                e1t <= e1n + d,
                old_rate > 0,
        ;
        assert(old_rate * d <= new_rate * d) by (nonlinear_arith)
            requires
                old_rate <= new_rate,
                d > 0,
        ;
        assert(0 <= old_rate * e1n && 0 <= old_rate * e1t && 0 <= old_rate * d) by (nonlinear_arith)
            requires
                old_rate > 0,
                e1n >= 0,
                e1t >= 0,
                d > 0,
        ;
    }
}

/// Once the cliff has passed, a stream accrues at least its checkpointed
/// amount, provided the deposit covers it.
pub proof fn lemma_accrued_at_least_checkpoint(cp: CheckpointState, rate_per_second: i128, t: u64)
    requires
        rate_per_second >= 0,
        0 <= cp.checkpointed_amount <= cp.deposit_amount,
        cp.cliff_time <= t,
    ensures
        accrued_at(cp, rate_per_second, t) >= cp.checkpointed_amount,
{
    let e = epoch_seconds(cp, t);
    assert(0 <= rate_per_second * e) by (nonlinear_arith)
        requires
            rate_per_second >= 0,
            e >= 0,
    ;
}

/// Moving the end of the schedule later never lowers the accrued amount.
pub proof fn lemma_accrued_end_later(cp: CheckpointState, rate_per_second: i128, new_end: u64, t: u64)
    requires
        rate_per_second >= 0,
        cp.checkpointed_amount >= 0,
        cp.deposit_amount >= 0,
        cp.end_time <= new_end,
    ensures
        accrued_at(CheckpointState { end_time: new_end, ..cp }, rate_per_second, t) >= accrued_at(cp, rate_per_second, t),
{
    let cp2 = CheckpointState { end_time: new_end, ..cp };
    let e1 = epoch_seconds(cp, t);
    let e2 = epoch_seconds(cp2, t);
    assert(0 <= e1 <= e2);
    assert(0 <= rate_per_second * e1 <= rate_per_second * e2) by (nonlinear_arith)
        requires
            0 <= e1 <= e2,
            rate_per_second >= 0,
    ;
}

/// Raising the deposit never lowers the accrued amount.
pub proof fn lemma_accrued_deposit_larger(cp: CheckpointState, rate_per_second: i128, new_deposit: i128, t: u64)
    requires
        0 <= cp.deposit_amount <= new_deposit,
    ensures
        accrued_at(CheckpointState { deposit_amount: new_deposit, ..cp }, rate_per_second, t) >= accrued_at(
            cp,
            rate_per_second,
            t,
        ),
{
}

/// After the end of the schedule, accrual no longer depends on the time.
pub proof fn lemma_accrued_constant_after_end(
    cp: CheckpointState,
    rate_per_second: i128,
    t1: u64,
    t2: u64,
)
    requires
        cp.end_time <= t1,
        cp.end_time <= t2,
        cp.cliff_time <= cp.end_time,
    ensures
        accrued_at(cp, rate_per_second, t1) == accrued_at(cp, rate_per_second, t2),
{
}

} // verus!
