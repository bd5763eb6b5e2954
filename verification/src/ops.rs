//! The mutating entry points: pool creation, stake, claim, unstake and the
//! admin-gated parameter and clock-offset updates.
//!
//! Each operation takes the current pool time as an argument and is atomic:
//! on any error it leaves both the pool and the participant record exactly as
//! they were. Token movement is left to the caller: `stake` asks the caller
//! to move `amount` from the participant to the vault, `claim` returns the
//! integer payout to move from the vault to the participant, and `unstake`
//! asks for `amount` to be moved from the vault to the participant. A caller
//! whose transfer fails must discard the records it passed in, so that the
//! whole operation aborts with no partial state.

use vstd::arithmetic::div_mod::{lemma_fundamental_div_mod, lemma_mod_pos_bound};
use vstd::prelude::*;

use crate::engine::{
    settle_overflows, settle_user_err, settled_pool, settled_user, spec_sat_sub_i64,
    update_pool_rewards, update_user_rewards,
};
use crate::state::{entry_within, stake_accounted, AccountId, ErrorCode, Pool, UserStake};
use crate::{FP_ONE, SECONDS_PER_YEAR};

verus! {

/// The Q64.64 per-second yield fraction derived from an annual yield in
/// basis points: `apy_bps * FP_ONE / 10000 / SECONDS_PER_YEAR`.
pub open spec fn rate_fp(apy_bps: u16) -> int {
    apy_bps * FP_ONE / 10000 / (SECONDS_PER_YEAR as int)
}

/// The pool as `initialize_pool` creates it.
pub open spec fn initial_pool(
    admin: AccountId,
    mint: AccountId,
    vault: AccountId,
    bump: u8,
    apy_bps: u16,
    lockup_seconds: u32,
    now: i64,
) -> Pool {
    Pool {
        admin,
        mint,
        vault,
        bump,
        apy_bps,
        lockup_seconds,
        acc_reward_per_token_fp: 0,
        rewards_owed_global_fp: 0,
        last_update_ts: now,
        reward_rate_fp: rate_fp(apy_bps) as u128,
        total_staked: 0,
        time_offset: 0,
    }
}

/// Compute the Q64.64 per-second rate for a validated annual yield.
fn compute_rate_fp(apy_bps: u16) -> (r: u128)
    requires
        apy_bps <= 10000,
    ensures
        r as int == rate_fp(apy_bps),
{
    (apy_bps as u128) * FP_ONE / 10000 / (SECONDS_PER_YEAR as u128)
}

/// Create a pool. Rejects an annual yield above 100% and a vault whose asset
/// or custodial authority does not match the pool's own identity. On success
/// every field of the new pool is pinned: zeroed accumulator and total, the
/// given parameters, the derived per-second rate, and `last_update_ts`
/// arming accrual at `now`.
pub fn initialize_pool(
    admin: AccountId,
    mint: AccountId,
    vault: AccountId,
    bump: u8,
    pool_signer: AccountId,
    vault_mint: AccountId,
    vault_owner: AccountId,
    apy_bps: u16,
    lockup_seconds: u32,
    now: i64,
) -> (r: Result<Pool, ErrorCode>)
    ensures
        apy_bps > 10000 <==> r == Err::<Pool, ErrorCode>(ErrorCode::InvalidParams),
        apy_bps <= 10000 && !(vault_mint == mint && vault_owner == pool_signer) <==> r == Err::<
            Pool,
            ErrorCode,
        >(ErrorCode::InvalidVault),
        apy_bps <= 10000 && vault_mint == mint && vault_owner == pool_signer <==> r == Ok::<
            Pool,
            ErrorCode,
        >(initial_pool(admin, mint, vault, bump, apy_bps, lockup_seconds, now)),
{
    if apy_bps > 10000 {
        return Err(ErrorCode::InvalidParams);
    }
    if !(vault_mint == mint) {
        return Err(ErrorCode::InvalidVault);
    }
    if !(vault_owner == pool_signer) {
        return Err(ErrorCode::InvalidVault);
    }
    let reward_rate_fp = compute_rate_fp(apy_bps);
    Ok(
        Pool {
            admin,
            mint,
            vault,
            bump,
            apy_bps,
            lockup_seconds,
            acc_reward_per_token_fp: 0,
            rewards_owed_global_fp: 0,
            last_update_ts: now,
            reward_rate_fp,
            total_staked: 0,
            time_offset: 0,
        },
    )
}

/// Why a stake would fail, if it would: zero amount, then any settlement
/// failure, then overflow of either balance increment.
pub open spec fn stake_err(pool: Pool, user: UserStake, amount: u64, now: i64) -> Option<
    ErrorCode,
> {
    if amount == 0 {
        Some(ErrorCode::ZeroAmount)
    } else if settle_overflows(pool, now) {
        Some(ErrorCode::Overflow)
    } else if settle_user_err(user, settled_pool(pool, now)) is Some {
        settle_user_err(user, settled_pool(pool, now))
    } else if settled_user(user, settled_pool(pool, now)).amount_staked + amount > u64::MAX
        || settled_pool(pool, now).total_staked + amount > u64::MAX {
        Some(ErrorCode::Overflow)
    } else {
        None
    }
}

/// Pool and record after a successful stake: both settled, the lockup clock
/// (re)armed only on a zero-to-nonzero transition, and both balances raised
/// by `amount`.
pub open spec fn stake_result(pool: Pool, user: UserStake, amount: u64, now: i64) -> (
    Pool,
    UserStake,
) {
    let p1 = settled_pool(pool, now);
    let u1 = settled_user(user, p1);
    let u2 = UserStake {
        stake_ts: if u1.amount_staked == 0 {
            now
        } else {
            u1.stake_ts
        },
        amount_staked: (u1.amount_staked + amount) as u64,
        ..u1
    };
    let p2 = Pool { total_staked: (p1.total_staked + amount) as u64, ..p1 };
    (p2, u2)
}

/// Stake `amount` into the pool. On success the caller must move `amount`
/// of the asset from the participant to the vault; if that transfer fails
/// the caller must discard the updated records.
pub fn stake(pool: &mut Pool, user: &mut UserStake, amount: u64, now: i64) -> (r: Result<
    (),
    ErrorCode,
>)
    ensures
        stake_err(*old(pool), *old(user), amount, now) is None ==> r is Ok && *final(pool)
            == stake_result(*old(pool), *old(user), amount, now).0 && *final(user) == stake_result(
            *old(pool),
            *old(user),
            amount,
            now,
        ).1,
        stake_err(*old(pool), *old(user), amount, now) matches Some(e) ==> r == Err::<
            (),
            ErrorCode,
        >(e) && *final(pool) == *old(pool) && *final(user) == *old(user),
        final(pool).total_staked - old(pool).total_staked == final(user).amount_staked - old(
            user,
        ).amount_staked,
        final(pool).acc_reward_per_token_fp >= old(pool).acc_reward_per_token_fp,
        entry_within(*old(user), *old(pool)) ==> entry_within(*final(user), *final(pool)),
        stake_accounted(*old(user), *old(pool)) ==> stake_accounted(*final(user), *final(pool)),
{
    if amount == 0 {
        return Err(ErrorCode::ZeroAmount);
    }
    let mut p = *pool;
    let mut u = *user;
    match update_pool_rewards(&mut p, now) {
        Ok(()) => {},
        Err(e) => {
            return Err(e);
        },
    }
    match update_user_rewards(&mut u, &p) {
        Ok(()) => {},
        Err(e) => {
            return Err(e);
        },
    }
    if u.amount_staked == 0 {
        u.stake_ts = now;
    }
    let new_amount = match u.amount_staked.checked_add(amount) {
        Some(a) => a,
        None => {
            return Err(ErrorCode::Overflow);
        },
    };
    let new_total = match p.total_staked.checked_add(amount) {
        Some(t) => t,
        None => {
            return Err(ErrorCode::Overflow);
        },
    };
    u.amount_staked = new_amount;
    p.total_staked = new_total;
    *pool = p;
    *user = u;
    Ok(())
}

/// Why a claim would fail, if it would: only a settlement failure can reject
/// it. A claim that pays zero tokens still succeeds.
pub open spec fn claim_err(pool: Pool, user: UserStake, now: i64) -> Option<ErrorCode> {
    if settle_overflows(pool, now) {
        Some(ErrorCode::Overflow)
    } else if settle_user_err(user, settled_pool(pool, now)) is Some {
        settle_user_err(user, settled_pool(pool, now))
    } else {
        None
    }
}

/// Integer tokens a successful claim pays: the settled owed balance
/// floor-divided by the fixed-point scale.
pub open spec fn claim_payout(pool: Pool, user: UserStake, now: i64) -> int {
    settled_user(user, settled_pool(pool, now)).rewards_owed_fp as int / FP_ONE as int
}

/// Pool and record after a successful claim: both settled, and exactly
/// `payout * FP_ONE` removed from the owed balance, so the fractional
/// remainder keeps compounding.
pub open spec fn claim_result(pool: Pool, user: UserStake, now: i64) -> (Pool, UserStake) {
    let p1 = settled_pool(pool, now);
    let u1 = settled_user(user, p1);
    let paid_fp = claim_payout(pool, user, now) * FP_ONE;
    (p1, UserStake { rewards_owed_fp: (u1.rewards_owed_fp - paid_fp) as u128, ..u1 })
}

/// Claim accrued rewards. On success the caller must move the returned
/// number of tokens from the vault to the participant (nothing when it is
/// zero); if that transfer fails the caller must discard the updated
/// records. Repeated claims lose nothing: the payout plus the remainder left
/// behind equals the settled owed balance exactly.
pub fn claim(pool: &mut Pool, user: &mut UserStake, now: i64) -> (r: Result<u64, ErrorCode>)
    ensures
        claim_err(*old(pool), *old(user), now) is None ==> r == Ok::<u64, ErrorCode>(
            claim_payout(*old(pool), *old(user), now) as u64,
        ) && *final(pool) == claim_result(*old(pool), *old(user), now).0 && *final(user)
            == claim_result(*old(pool), *old(user), now).1,
        claim_err(*old(pool), *old(user), now) matches Some(e) ==> r == Err::<u64, ErrorCode>(e)
            && *final(pool) == *old(pool) && *final(user) == *old(user),
        r matches Ok(t) ==> t * FP_ONE + final(user).rewards_owed_fp == settled_user(
            *old(user),
            settled_pool(*old(pool), now),
        ).rewards_owed_fp,
        r is Ok ==> final(user).rewards_owed_fp < FP_ONE,
        final(pool).total_staked - old(pool).total_staked == final(user).amount_staked - old(
            user,
        ).amount_staked,
        final(pool).acc_reward_per_token_fp >= old(pool).acc_reward_per_token_fp,
        entry_within(*old(user), *old(pool)) ==> entry_within(*final(user), *final(pool)),
        stake_accounted(*old(user), *old(pool)) ==> stake_accounted(*final(user), *final(pool)),
{
    let mut p = *pool;
    let mut u = *user;
    match update_pool_rewards(&mut p, now) {
        Ok(()) => {},
        Err(e) => {
            return Err(e);
        },
    }
    match update_user_rewards(&mut u, &p) {
        Ok(()) => {},
        Err(e) => {
            return Err(e);
        },
    }
    let owed_fp = u.rewards_owed_fp;
    let tokens_wide = owed_fp / FP_ONE;
    proof {
        lemma_fundamental_div_mod(owed_fp as int, FP_ONE as int);
        lemma_mod_pos_bound(owed_fp as int, FP_ONE as int);
        assert(tokens_wide <= u64::MAX) by (nonlinear_arith)
            requires
                tokens_wide == owed_fp as int / FP_ONE as int,
                owed_fp <= u128::MAX,
                FP_ONE == 0x1_0000_0000_0000_0000,
        ;
    }
    let tokens_owed = tokens_wide as u64;
    if tokens_owed > 0 {
        let paid_back_fp = (tokens_owed as u128) * FP_ONE;
        u.rewards_owed_fp = owed_fp - paid_back_fp;
    }
    *pool = p;
    *user = u;
    Ok(tokens_owed)
}

/// Whether the lockup window still holds the participant's principal at
/// `now`: a nonzero lockup that has not yet elapsed since the lockup clock
/// was last armed.
pub open spec fn lockup_active(pool: Pool, user: UserStake, now: i64) -> bool {
    pool.lockup_seconds > 0 && spec_sat_sub_i64(now as int, user.stake_ts as int)
        < pool.lockup_seconds
}

/// Why an unstake would fail, if it would: zero amount, then the lockup
/// gate, then any settlement failure, then a request beyond the
/// participant's balance.
pub open spec fn unstake_err(pool: Pool, user: UserStake, amount: u64, now: i64) -> Option<
    ErrorCode,
> {
    if amount == 0 {
        Some(ErrorCode::ZeroAmount)
    } else if lockup_active(pool, user, now) {
        Some(ErrorCode::Lockup)
    } else if settle_overflows(pool, now) {
        Some(ErrorCode::Overflow)
    } else if settle_user_err(user, settled_pool(pool, now)) is Some {
        settle_user_err(user, settled_pool(pool, now))
    } else if settled_user(user, settled_pool(pool, now)).amount_staked < amount {
        Some(ErrorCode::InsufficientStake)
    } else {
        None
    }
}

/// Pool and record after a successful unstake: both settled and both
/// balances lowered by `amount`.
pub open spec fn unstake_result(pool: Pool, user: UserStake, amount: u64, now: i64) -> (
    Pool,
    UserStake,
) {
    let p1 = settled_pool(pool, now);
    let u1 = settled_user(user, p1);
    (
        Pool { total_staked: (p1.total_staked - amount) as u64, ..p1 },
        UserStake { amount_staked: (u1.amount_staked - amount) as u64, ..u1 },
    )
}

/// Withdraw `amount` of principal. Requires the record to be accounted for
/// in the pool total (the per-record face of the global sum invariant). On
/// success the caller must move `amount` from the vault to the participant;
/// if that transfer fails the caller must discard the updated records.
pub fn unstake(pool: &mut Pool, user: &mut UserStake, amount: u64, now: i64) -> (r: Result<
    (),
    ErrorCode,
>)
    requires
        stake_accounted(*old(user), *old(pool)),
    ensures
        unstake_err(*old(pool), *old(user), amount, now) is None ==> r is Ok && *final(pool)
            == unstake_result(*old(pool), *old(user), amount, now).0 && *final(user)
            == unstake_result(*old(pool), *old(user), amount, now).1,
        unstake_err(*old(pool), *old(user), amount, now) matches Some(e) ==> r == Err::<
            (),
            ErrorCode,
        >(e) && *final(pool) == *old(pool) && *final(user) == *old(user),
        final(pool).total_staked - old(pool).total_staked == final(user).amount_staked - old(
            user,
        ).amount_staked,
        final(pool).acc_reward_per_token_fp >= old(pool).acc_reward_per_token_fp,
        entry_within(*old(user), *old(pool)) ==> entry_within(*final(user), *final(pool)),
        stake_accounted(*final(user), *final(pool)),
{
    if amount == 0 {
        return Err(ErrorCode::ZeroAmount);
    }
    if pool.lockup_seconds > 0 {
        let dwell = crate::engine::sat_sub_i64(now, user.stake_ts);
        if dwell < pool.lockup_seconds as i64 {
            return Err(ErrorCode::Lockup);
        }
    }
    let mut p = *pool;
    let mut u = *user;
    match update_pool_rewards(&mut p, now) {
        Ok(()) => {},
        Err(e) => {
            return Err(e);
        },
    }
    match update_user_rewards(&mut u, &p) {
        Ok(()) => {},
        Err(e) => {
            return Err(e);
        },
    }
    if u.amount_staked < amount {
        return Err(ErrorCode::InsufficientStake);
    }
    u.amount_staked = u.amount_staked - amount;
    p.total_staked = p.total_staked - amount;
    *pool = p;
    *user = u;
    Ok(())
}

/// Why a parameter update would fail, if it would: a non-admin caller, an
/// annual yield above 100%, then a settlement overflow.
pub open spec fn set_params_err(pool: Pool, caller: AccountId, apy_bps: u16, now: i64) -> Option<
    ErrorCode,
> {
    if caller != pool.admin {
        Some(ErrorCode::Unauthorized)
    } else if apy_bps > 10000 {
        Some(ErrorCode::InvalidParams)
    } else if settle_overflows(pool, now) {
        Some(ErrorCode::Overflow)
    } else {
        None
    }
}

/// Pool after a successful parameter update: settled through `now` at the
/// old rate first, then carrying the new parameters and the rate derived
/// from them. Rate changes are strictly prospective.
pub open spec fn set_params_result(pool: Pool, apy_bps: u16, lockup_seconds: u32, now: i64) -> Pool {
    Pool {
        apy_bps,
        lockup_seconds,
        reward_rate_fp: rate_fp(apy_bps) as u128,
        ..settled_pool(pool, now)
    }
}

/// Change the pool's annual yield and lockup. Settles the pool first so the
/// old rate is credited exactly for all time up to `now`; the new rate
/// applies only from `now` on.
pub fn set_params(
    pool: &mut Pool,
    caller: AccountId,
    apy_bps: u16,
    lockup_seconds: u32,
    now: i64,
) -> (r: Result<(), ErrorCode>)
    ensures
        set_params_err(*old(pool), caller, apy_bps, now) is None ==> r is Ok && *final(pool)
            == set_params_result(*old(pool), apy_bps, lockup_seconds, now),
        set_params_err(*old(pool), caller, apy_bps, now) matches Some(e) ==> r == Err::<
            (),
            ErrorCode,
        >(e) && *final(pool) == *old(pool),
        final(pool).acc_reward_per_token_fp >= old(pool).acc_reward_per_token_fp,
        final(pool).total_staked == old(pool).total_staked,
{
    if !(caller == pool.admin) {
        return Err(ErrorCode::Unauthorized);
    }
    if apy_bps > 10000 {
        return Err(ErrorCode::InvalidParams);
    }
    let mut p = *pool;
    match update_pool_rewards(&mut p, now) {
        Ok(()) => {},
        Err(e) => {
            return Err(e);
        },
    }
    p.apy_bps = apy_bps;
    p.lockup_seconds = lockup_seconds;
    p.reward_rate_fp = compute_rate_fp(apy_bps);
    *pool = p;
    Ok(())
}

/// Set the pool's test-only clock offset. Admin-gated; touches nothing but
/// `time_offset`.
pub fn set_time_offset(pool: &mut Pool, caller: AccountId, offset_seconds: i64) -> (r: Result<
    (),
    ErrorCode,
>)
    ensures
        caller == old(pool).admin ==> r is Ok && *final(pool) == (Pool {
            time_offset: offset_seconds,
            ..*old(pool)
        }),
        caller != old(pool).admin ==> r == Err::<(), ErrorCode>(ErrorCode::Unauthorized)
            && *final(pool) == *old(pool),
{
    if !(caller == pool.admin) {
        return Err(ErrorCode::Unauthorized);
    }
    pool.time_offset = offset_seconds;
    Ok(())
}

} // verus!
