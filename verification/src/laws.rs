//! The accounting laws, stated over the same specification model the
//! operations' contracts use, and proved for every input they speak of.

use vstd::arithmetic::div_mod::{
    lemma_div_pos_is_pos, lemma_fundamental_div_mod, lemma_mod_pos_bound,
};
use vstd::prelude::*;

use crate::engine::{
    pool_elapsed, pool_increment, settle_overflows, settle_user_err, settled_pool, settled_user,
    user_pending,
};
use crate::ops::{claim_err, claim_payout, claim_result};
use crate::state::{Pool, UserStake};
use crate::FP_ONE;

verus! {

/// Sum of the principal staked across a pool's participant records.
pub open spec fn sum_staked(records: Seq<UserStake>) -> int
    decreases records.len(),
{
    if records.len() == 0 {
        0
    } else {
        records[0].amount_staked + sum_staked(records.drop_first())
    }
}

/// The pool-wide sum invariant: the ledger's total equals the sum of all
/// participants' staked amounts.
pub open spec fn pool_accounted(pool: Pool, records: Seq<UserStake>) -> bool {
    pool.total_staked == sum_staked(records)
}

/// Replacing one record changes the sum by exactly the change in that
/// record's principal.
pub proof fn lemma_sum_staked_update(records: Seq<UserStake>, i: int, r: UserStake)
    requires
        0 <= i < records.len(),
    ensures
        sum_staked(records.update(i, r)) == sum_staked(records) - records[i].amount_staked
            + r.amount_staked,
    decreases records.len(),
{
    if i == 0 {
        assert(records.update(0, r).drop_first() =~= records.drop_first());
    } else {
        lemma_sum_staked_update(records.drop_first(), i - 1, r);
        assert(records.update(i, r).drop_first() =~= records.drop_first().update(i - 1, r));
    }
}

/// Admitting a fresh record adds exactly its principal to the sum; a record
/// created with zero principal leaves the sum unchanged.
pub proof fn lemma_sum_staked_push(records: Seq<UserStake>, r: UserStake)
    ensures
        sum_staked(records.push(r)) == sum_staked(records) + r.amount_staked,
    decreases records.len(),
{
    if records.len() == 0 {
        assert(records.push(r)[0] == r);
        assert(records.push(r).drop_first() =~= Seq::<UserStake>::empty());
        assert(sum_staked(Seq::<UserStake>::empty()) == 0);
    } else {
        assert(records.push(r)[0] == records[0]);
        lemma_sum_staked_push(records.drop_first(), r);
        assert(records.push(r).drop_first() =~= records.drop_first().push(r));
    }
}

/// The sum invariant holds of every reachable state: every operation's
/// contract guarantees that the pool total and the touched participant's
/// principal move by the same amount, and under that guarantee the invariant
/// carries from any state to the next.
pub proof fn lemma_pool_accounting_preserved(
    p0: Pool,
    p1: Pool,
    records: Seq<UserStake>,
    i: int,
    u1: UserStake,
)
    requires
        pool_accounted(p0, records),
        0 <= i < records.len(),
        p1.total_staked - p0.total_staked == u1.amount_staked - records[i].amount_staked,
    ensures
        pool_accounted(p1, records.update(i, u1)),
{
    lemma_sum_staked_update(records, i, u1);
}

/// The accumulator increment of a settlement interval is never negative.
pub proof fn lemma_pool_increment_nonneg(p: Pool, now: i64)
    requires
        p.total_staked > 0,
        pool_elapsed(p, now) > 0,
    ensures
        pool_increment(p, now) >= 0,
{
    assert(pool_elapsed(p, now) * p.reward_rate_fp * p.total_staked >= 0) by (nonlinear_arith)
        requires
            pool_elapsed(p, now) > 0,
            p.reward_rate_fp >= 0,
            p.total_staked > 0,
    ;
    lemma_div_pos_is_pos(
        pool_elapsed(p, now) * p.reward_rate_fp * p.total_staked,
        p.total_staked as int,
    );
}

/// The accumulator never decreases across a settlement.
pub proof fn lemma_settled_pool_monotone(p: Pool, now: i64)
    requires
        !settle_overflows(p, now),
    ensures
        settled_pool(p, now).acc_reward_per_token_fp >= p.acc_reward_per_token_fp,
{
    if pool_elapsed(p, now) > 0 && p.total_staked > 0 {
        lemma_pool_increment_nonneg(p, now);
    }
}

/// Settling is idempotent: rolling the pool forward a second time to the
/// same instant changes no field and cannot overflow.
pub proof fn lemma_settle_pool_idempotent(p: Pool, now: i64)
    requires
        !settle_overflows(p, now),
    ensures
        !settle_overflows(settled_pool(p, now), now),
        settled_pool(settled_pool(p, now), now) == settled_pool(p, now),
{
}

/// A settled participant's snapshot sits flush with the accumulator, so an
/// immediate second settlement credits nothing and changes no field.
pub proof fn lemma_settle_user_idempotent(u: UserStake, p: Pool)
    requires
        settle_user_err(u, p) is None,
    ensures
        settle_user_err(settled_user(u, p), p) is None,
        settled_user(settled_user(u, p), p) == settled_user(u, p),
{
    let u1 = settled_user(u, p);
    assert(crate::engine::user_delta(u1, p) == 0);
    assert(user_pending(u1, p) == 0);
    assert(settled_user(u1, p).rewards_owed_fp == u1.rewards_owed_fp);
}

/// Fairness for a sole staker: a participant settled flush with the
/// accumulator who holds the whole pool earns over an interval exactly
/// `amount_staked * ((elapsed * rate * total_staked) / total_staked)` — the
/// multiply-then-divide form, whose truncation is part of the contract. By
/// the idempotence laws, interleaving any number of no-op settlements leaves
/// this amount unchanged.
pub proof fn lemma_sole_staker_reward(p: Pool, u: UserStake, now: i64)
    requires
        p.total_staked == u.amount_staked,
        u.amount_staked > 0,
        u.user_entry_acc_rpt_fp == p.acc_reward_per_token_fp,
        pool_elapsed(p, now) > 0,
        !settle_overflows(p, now),
        settle_user_err(u, settled_pool(p, now)) is None,
    ensures
        settled_user(u, settled_pool(p, now)).rewards_owed_fp == u.rewards_owed_fp
            + u.amount_staked * pool_increment(p, now),
{
    lemma_pool_increment_nonneg(p, now);
}

/// Fairness across participants: over one and the same accumulator interval,
/// pending rewards stand in exactly the ratio of the stakes.
pub proof fn lemma_shared_interval_proportional(a: UserStake, b: UserStake, p: Pool)
    requires
        a.user_entry_acc_rpt_fp == b.user_entry_acc_rpt_fp,
    ensures
        user_pending(a, p) * b.amount_staked == user_pending(b, p) * a.amount_staked,
{
    let delta = p.acc_reward_per_token_fp - a.user_entry_acc_rpt_fp;
    assert((a.amount_staked * delta) * b.amount_staked == (b.amount_staked * delta)
        * a.amount_staked) by (nonlinear_arith);
}

/// A participant with no stake accrues nothing, however far the accumulator
/// advances while they are out of the pool.
pub proof fn lemma_zero_stake_accrues_nothing(u: UserStake, p: Pool)
    requires
        u.amount_staked == 0,
        settle_user_err(u, p) is None,
    ensures
        settled_user(u, p).rewards_owed_fp == u.rewards_owed_fp,
{
}

/// Claim round-trip at the quantization step: the integer payout scaled back
/// to fixed point plus the retained remainder equals the owed balance
/// exactly, and the remainder is below one whole token.
pub proof fn lemma_quantize_conserves(owed_fp: u128)
    ensures
        (owed_fp as int / FP_ONE as int) * FP_ONE + (owed_fp as int % FP_ONE as int) == owed_fp,
        0 <= (owed_fp as int % FP_ONE as int) < FP_ONE,
{
    lemma_fundamental_div_mod(owed_fp as int, FP_ONE as int);
    lemma_mod_pos_bound(owed_fp as int, FP_ONE as int);
}

/// Claim round-trip at the operation level: a successful claim's payout plus
/// the remainder it leaves behind equal the settled owed balance, so summed
/// over any run of claims the payouts plus the final remainder equal the
/// total reward ever credited.
pub proof fn lemma_claim_conserves(p: Pool, u: UserStake, now: i64)
    requires
        claim_err(p, u, now) is None,
    ensures
        claim_payout(p, u, now) * FP_ONE + claim_result(p, u, now).1.rewards_owed_fp
            == settled_user(u, settled_pool(p, now)).rewards_owed_fp,
        claim_result(p, u, now).1.rewards_owed_fp < FP_ONE,
{
    let owed = settled_user(u, settled_pool(p, now)).rewards_owed_fp;
    lemma_quantize_conserves(owed);
}

} // verus!
