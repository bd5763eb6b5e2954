//! The reward engine: clock arithmetic, pool settlement and participant
//! settlement, together with the specification-level model of both
//! settlement steps.

use vstd::prelude::*;

use crate::state::{ErrorCode, Pool, UserStake};

verus! {

/// Mathematical value of `i64::saturating_add`.
pub open spec fn spec_sat_add_i64(a: int, b: int) -> int {
    if a + b > i64::MAX {
        i64::MAX as int
    } else if a + b < i64::MIN {
        i64::MIN as int
    } else {
        a + b
    }
}

/// Mathematical value of `i64::saturating_sub`.
pub open spec fn spec_sat_sub_i64(a: int, b: int) -> int {
    if a - b > i64::MAX {
        i64::MAX as int
    } else if a - b < i64::MIN {
        i64::MIN as int
    } else {
        a - b
    }
}

/// Saturating addition on `i64`, computed through a 128-bit intermediate.
pub fn sat_add_i64(a: i64, b: i64) -> (r: i64)
    ensures
        r as int == spec_sat_add_i64(a as int, b as int),
{
    let wide: i128 = a as i128 + b as i128;
    if wide > i64::MAX as i128 {
        i64::MAX
    } else if wide < i64::MIN as i128 {
        i64::MIN
    } else {
        wide as i64
    }
}

/// Saturating subtraction on `i64`, computed through a 128-bit intermediate.
pub fn sat_sub_i64(a: i64, b: i64) -> (r: i64)
    ensures
        r as int == spec_sat_sub_i64(a as int, b as int),
{
    let wide: i128 = a as i128 - b as i128;
    if wide > i64::MAX as i128 {
        i64::MAX
    } else if wide < i64::MIN as i128 {
        i64::MIN
    } else {
        wide as i64
    }
}

/// Current pool time: the ambient wall clock shifted by the pool's test-only
/// offset. The caller supplies the wall-clock reading; this crate performs no
/// I/O.
pub fn now_ts(pool: &Pool, wall_clock_ts: i64) -> (r: i64)
    ensures
        r as int == spec_sat_add_i64(wall_clock_ts as int, pool.time_offset as int),
{
    sat_add_i64(wall_clock_ts, pool.time_offset)
}

/// Seconds elapsed since the pool was last rolled forward, as the engine
/// measures it (saturating).
pub open spec fn pool_elapsed(pool: Pool, now: i64) -> int {
    spec_sat_sub_i64(now as int, pool.last_update_ts as int)
}

/// The amount added to the pool accumulator for an interval of `elapsed`
/// seconds: `elapsed * rate * total_staked`, then divided back by
/// `total_staked`. The multiply-then-divide form is deliberate; its
/// truncation can differ by one unit from `elapsed * rate`.
pub open spec fn pool_increment(pool: Pool, now: i64) -> int
    recommends
        pool.total_staked > 0,
{
    (pool_elapsed(pool, now) * pool.reward_rate_fp * pool.total_staked) / (
    pool.total_staked as int)
}

/// Whether rolling the pool forward to `now` would overflow: either the wide
/// product `elapsed * rate * total_staked` exceeds `u128::MAX`, or adding the
/// increment to the accumulator does.
pub open spec fn settle_overflows(pool: Pool, now: i64) -> bool {
    let elapsed = pool_elapsed(pool, now);
    elapsed > 0 && pool.total_staked > 0 && {
        ||| elapsed * pool.reward_rate_fp * pool.total_staked > u128::MAX
        ||| pool.acc_reward_per_token_fp + pool_increment(pool, now) > u128::MAX
    }
}

/// The pool after rolling its accumulator forward to `now` (meaningful when
/// `!settle_overflows(pool, now)`). With no elapsed time the pool is
/// unchanged; with no stakers the interval's reward is forfeited and only the
/// timestamp advances.
pub open spec fn settled_pool(pool: Pool, now: i64) -> Pool {
    let elapsed = pool_elapsed(pool, now);
    if elapsed <= 0 {
        pool
    } else if pool.total_staked == 0 {
        Pool { last_update_ts: now, ..pool }
    } else {
        Pool {
            acc_reward_per_token_fp: (pool.acc_reward_per_token_fp + pool_increment(pool, now))
                as u128,
            last_update_ts: now,
            ..pool
        }
    }
}

/// Roll the pool accumulator forward to `now`, crediting reward uniformly to
/// all present stake. On overflow the pool is left untouched and the whole
/// operation must be abandoned.
pub fn update_pool_rewards(pool: &mut Pool, now: i64) -> (r: Result<(), ErrorCode>)
    ensures
        !settle_overflows(*old(pool), now) ==> r is Ok && *final(pool) == settled_pool(
            *old(pool),
            now,
        ),
        settle_overflows(*old(pool), now) ==> r == Err::<(), ErrorCode>(ErrorCode::Overflow)
            && *final(pool) == *old(pool),
        final(pool).acc_reward_per_token_fp >= old(pool).acc_reward_per_token_fp,
        final(pool).last_update_ts >= old(pool).last_update_ts,
{
    let dt = sat_sub_i64(now, pool.last_update_ts);
    if dt <= 0 {
        return Ok(());
    }
    if pool.total_staked == 0 {
        pool.last_update_ts = now;
        return Ok(());
    }
    let dt_u = dt as u128;
    let rate = pool.reward_rate_fp;
    let staked = pool.total_staked as u128;
    let part = match dt_u.checked_mul(rate) {
        Some(p) => p,
        None => {
            proof {
                assert((dt_u as int) * (rate as int) * (staked as int) > u128::MAX) by (
                nonlinear_arith)
                    requires
                        (dt_u as int) * (rate as int) > u128::MAX,
                        staked >= 1,
                ;
            }
            return Err(ErrorCode::Overflow);
        },
    };
    let added = match part.checked_mul(staked) {
        Some(a) => a,
        None => {
            return Err(ErrorCode::Overflow);
        },
    };
    let incr = added / staked;
    let new_acc = match pool.acc_reward_per_token_fp.checked_add(incr) {
        Some(a) => a,
        None => {
            return Err(ErrorCode::Overflow);
        },
    };
    pool.acc_reward_per_token_fp = new_acc;
    pool.last_update_ts = now;
    Ok(())
}

/// The accumulator advance this participant has not yet been paid for.
pub open spec fn user_delta(user: UserStake, pool: Pool) -> int {
    pool.acc_reward_per_token_fp - user.user_entry_acc_rpt_fp
}

/// The fixed-point reward pending for this participant:
/// `amount_staked * (acc - entry)`.
pub open spec fn user_pending(user: UserStake, pool: Pool) -> int {
    user.amount_staked * user_delta(user, pool)
}

/// Why settling this participant against this pool would fail, if it would:
/// a snapshot ahead of the accumulator is an internal-consistency error, and
/// the pending multiply and the owed add are overflow-checked.
pub open spec fn settle_user_err(user: UserStake, pool: Pool) -> Option<ErrorCode> {
    if user_delta(user, pool) < 0 {
        Some(ErrorCode::Underflow)
    } else if user_pending(user, pool) > u128::MAX {
        Some(ErrorCode::Overflow)
    } else if user.rewards_owed_fp + user_pending(user, pool) > u128::MAX {
        Some(ErrorCode::Overflow)
    } else {
        None
    }
}

/// The participant after settlement: pending reward folded into the owed
/// balance, snapshot re-based to the pool accumulator (meaningful when
/// `settle_user_err(user, pool) is None`).
pub open spec fn settled_user(user: UserStake, pool: Pool) -> UserStake {
    UserStake {
        rewards_owed_fp: (user.rewards_owed_fp + user_pending(user, pool)) as u128,
        user_entry_acc_rpt_fp: pool.acc_reward_per_token_fp,
        ..user
    }
}

/// Fold the participant's earned-but-unclaimed reward into their owed balance
/// and re-base their snapshot. Must run immediately after the pool has been
/// rolled forward and before any change to `amount_staked`. On failure the
/// record is left untouched.
pub fn update_user_rewards(user: &mut UserStake, pool: &Pool) -> (r: Result<(), ErrorCode>)
    ensures
        settle_user_err(*old(user), *pool) is None ==> r is Ok && *final(user) == settled_user(
            *old(user),
            *pool,
        ),
        settle_user_err(*old(user), *pool) is Some ==> r == Err::<(), ErrorCode>(
            settle_user_err(*old(user), *pool)->Some_0,
        ) && *final(user) == *old(user),
        final(user).rewards_owed_fp >= old(user).rewards_owed_fp,
        r is Ok ==> final(user).user_entry_acc_rpt_fp == pool.acc_reward_per_token_fp,
{
    let delta = match pool.acc_reward_per_token_fp.checked_sub(user.user_entry_acc_rpt_fp) {
        Some(d) => d,
        None => {
            return Err(ErrorCode::Underflow);
        },
    };
    let pending = match (user.amount_staked as u128).checked_mul(delta) {
        Some(p) => p,
        None => {
            return Err(ErrorCode::Overflow);
        },
    };
    let new_owed = match user.rewards_owed_fp.checked_add(pending) {
        Some(o) => o,
        None => {
            return Err(ErrorCode::Overflow);
        },
    };
    user.rewards_owed_fp = new_owed;
    user.user_entry_acc_rpt_fp = pool.acc_reward_per_token_fp;
    Ok(())
}

} // verus!
