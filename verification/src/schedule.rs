//! The release schedule and the unlock-amount formula.
//!
//! A stage's schedule unlocks `soon_pct` percent of the allocation as soon as
//! release has started, nothing more during a cliff of `cliff_duration`
//! seconds, and the locked remainder linearly over the `linear_duration`
//! seconds after the cliff, capped at the whole allocation.

use vstd::arithmetic::div_mod::{
    lemma_div_is_ordered, lemma_div_multiples_vanish, lemma_div_pos_is_pos,
};
use vstd::arithmetic::mul::{lemma_mul_inequality, lemma_mul_nonnegative, lemma_mul_upper_bound};
use vstd::prelude::*;

verus! {

/// Release schedule of one stage of a project.
#[derive(Clone, Copy, PartialEq, Eq, Structural, Debug)]
pub struct VestingParameter {
    /// Percentage of the allocation unlocked immediately once release starts.
    pub soon_pct: u64,
    /// Seconds after the start during which only the immediate part is unlocked.
    pub cliff_duration: u64,
    /// Seconds over which the remainder unlocks linearly once the cliff is past.
    pub linear_duration: u64,
}

impl VestingParameter {
    /// A schedule is usable when the percentage is a real percentage and the
    /// linear phase has a positive length: the unlock formula divides by it.
    /// Schedules are checked for this whenever one is stored.
    pub open spec fn wf(self) -> bool {
        self.soon_pct <= 100 && 1 <= self.linear_duration
    }
}

/// Seconds elapsed since release started, saturating at zero for a clock
/// that reads earlier than the start.
pub open spec fn elapsed_since(start_time: int, now: int) -> int {
    if now >= start_time {
        now - start_time
    } else {
        0
    }
}

/// Amount unlocked `elapsed` seconds into a schedule, out of an allocation of
/// `total`: the immediate percentage as soon as any time has passed, plus,
/// once the cliff is past, a linear share of the locked remainder, capped at
/// the whole allocation. Divisions truncate.
pub open spec fn unlocked_after(total: int, pct: int, cliff: int, linear: int, elapsed: int) -> int {
    let immediate = if elapsed > 0 {
        total * pct / 100
    } else {
        0
    };
    let locked = total - immediate;
    if elapsed > cliff {
        let linear_part = (elapsed - cliff) * locked / linear;
        if immediate + linear_part >= total {
            total
        } else {
            immediate + linear_part
        }
    } else {
        immediate
    }
}

/// Total amount unlocked at time `now` under `param`, for a release that
/// started at `start_time`. A `start_time` of zero means release has not
/// started: nothing is unlocked.
pub open spec fn unlocked_at(total: u64, param: VestingParameter, start_time: u64, now: u64) -> int {
    if start_time == 0 {
        0
    } else {
        unlocked_after(
            total as int,
            param.soon_pct as int,
            param.cliff_duration as int,
            param.linear_duration as int,
            elapsed_since(start_time as int, now as int),
        )
    }
}

/// Unlocked-to-date minus already-released: what a claim at `now` pays out.
/// Zero when the recorded release already covers the unlocked total, which
/// can only arise from a destructive bulk overwrite of the records.
pub open spec fn pending_at(
    total: u64,
    released: u64,
    param: VestingParameter,
    start_time: u64,
    now: u64,
) -> int {
    let unlocked = unlocked_at(total, param, start_time, now);
    if unlocked >= released {
        unlocked - released
    } else {
        0
    }
}

/// The immediate percentage of an allocation never exceeds the allocation.
proof fn lemma_immediate_in_range(total: int, pct: int)
    requires
        0 <= total,
        0 <= pct <= 100,
    ensures
        0 <= total * pct / 100 <= total,
{
    lemma_mul_nonnegative(total, pct);
    lemma_div_pos_is_pos(total * pct, 100);
    lemma_mul_inequality(pct, 100, total);
    assert(total * pct == pct * total);
    assert(100 * total == total * 100);
    lemma_div_is_ordered(total * pct, total * 100, 100);
    lemma_div_multiples_vanish(total, 100);
    assert(100 * total / 100 == total);
}

/// The unlocked amount never exceeds the allocation, at any point of the
/// schedule.
pub proof fn lemma_unlocked_after_in_range(
    total: int,
    pct: int,
    cliff: int,
    linear: int,
    elapsed: int,
)
    requires
        0 <= total,
        0 <= pct <= 100,
        0 <= cliff,
        1 <= linear,
    ensures
        0 <= unlocked_after(total, pct, cliff, linear, elapsed) <= total,
{
    lemma_immediate_in_range(total, pct);
    let immediate = if elapsed > 0 {
        total * pct / 100
    } else {
        0
    };
    if elapsed > cliff {
        lemma_mul_nonnegative(elapsed - cliff, total - immediate);
        lemma_div_pos_is_pos((elapsed - cliff) * (total - immediate), linear);
    }
}

/// Unlocked amount never exceeds `total_amount`, whatever the clock says.
pub proof fn lemma_unlocked_at_in_range(total: u64, param: VestingParameter, start_time: u64, now: u64)
    requires
        param.wf(),
    ensures
        0 <= unlocked_at(total, param, start_time, now) <= total,
{
    if start_time != 0 {
        lemma_unlocked_after_in_range(
            total as int,
            param.soon_pct as int,
            param.cliff_duration as int,
            param.linear_duration as int,
            elapsed_since(start_time as int, now as int),
        );
    }
}

/// Deeper into the schedule, at least as much is unlocked.
proof fn lemma_unlocked_after_monotonic(
    total: int,
    pct: int,
    cliff: int,
    linear: int,
    e1: int,
    e2: int,
)
    requires
        0 <= total,
        0 <= pct <= 100,
        0 <= cliff,
        1 <= linear,
        0 <= e1 <= e2,
    ensures
        unlocked_after(total, pct, cliff, linear, e1) <= unlocked_after(total, pct, cliff, linear, e2),
{
    lemma_immediate_in_range(total, pct);
    lemma_unlocked_after_in_range(total, pct, cliff, linear, e1);
    lemma_unlocked_after_in_range(total, pct, cliff, linear, e2);
    if e1 > 0 {
        let immediate = total * pct / 100;
        let locked = total - immediate;
        if e1 > cliff {
            lemma_mul_inequality(e1 - cliff, e2 - cliff, locked);
            lemma_div_is_ordered((e1 - cliff) * locked, (e2 - cliff) * locked, linear);
        } else if e2 > cliff {
            lemma_mul_nonnegative(e2 - cliff, locked);
            lemma_div_pos_is_pos((e2 - cliff) * locked, linear);
        }
    }
}

/// For a fixed allocation and a usable schedule, the unlocked amount is
/// monotonically non-decreasing in the current time.
pub proof fn lemma_unlocked_at_monotonic(
    total: u64,
    param: VestingParameter,
    start_time: u64,
    now1: u64,
    now2: u64,
)
    requires
        param.wf(),
        now1 <= now2,
    ensures
        unlocked_at(total, param, start_time, now1) <= unlocked_at(total, param, start_time, now2),
{
    if start_time != 0 {
        lemma_unlocked_after_monotonic(
            total as int,
            param.soon_pct as int,
            param.cliff_duration as int,
            param.linear_duration as int,
            elapsed_since(start_time as int, now1 as int),
            elapsed_since(start_time as int, now2 as int),
        );
    }
}

/// The recorded release plus the pending amount never leaves `u64`: it comes
/// to the unlocked total where that covers the record, and to the record
/// itself where it does not.
pub proof fn lemma_released_plus_pending_fits(
    total: u64,
    released: u64,
    param: VestingParameter,
    start_time: u64,
    now: u64,
)
    requires
        param.wf(),
    ensures
        released + pending_at(total, released, param, start_time, now) <= u64::MAX,
{
    lemma_unlocked_at_in_range(total, param, start_time, now);
}

/// Executable form of the unlock formula. Intermediate products are computed
/// at double width, so no input can overflow it.
pub fn calc_unlocked(total: u64, param: &VestingParameter, start_time: u64, now: u64) -> (r: u64)
    requires
        param.wf(),
    ensures
        r == unlocked_at(total, *param, start_time, now),
{
    if start_time == 0 {
        return 0;
    }
    let elapsed: u64 = if now >= start_time {
        now - start_time
    } else {
        0
    };
    let total_wide: u128 = total as u128;
    proof {
        lemma_mul_upper_bound(total as int, u64::MAX as int, param.soon_pct as int, 100);
        lemma_immediate_in_range(total as int, param.soon_pct as int);
    }
    let immediate_wide: u128 = if elapsed > 0 {
        total_wide * (param.soon_pct as u128) / 100
    } else {
        0
    };
    let immediate: u64 = immediate_wide as u64;
    let locked: u64 = total - immediate;
    if elapsed > param.cliff_duration {
        proof {
            lemma_mul_upper_bound(
                elapsed - param.cliff_duration,
                u64::MAX as int,
                locked as int,
                u64::MAX as int,
            );
            lemma_mul_nonnegative(elapsed - param.cliff_duration, locked as int);
            lemma_div_pos_is_pos(
                (elapsed - param.cliff_duration) * (locked as int),
                param.linear_duration as int,
            );
        }
        let linear_part: u128 = ((elapsed - param.cliff_duration) as u128) * (locked as u128)
            / (param.linear_duration as u128);
        let candidate: u128 = immediate as u128 + linear_part;
        if candidate >= total_wide {
            total
        } else {
            candidate as u64
        }
    } else {
        immediate
    }
}

} // verus!
