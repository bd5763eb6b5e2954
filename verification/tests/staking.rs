use abc_staking::engine::{now_ts, update_pool_rewards, update_user_rewards};
use abc_staking::ops::{claim, initialize_pool, set_params, set_time_offset, stake, unstake};
use abc_staking::state::{AccountId, ErrorCode, Pool, UserStake};
use abc_staking::{FP_ONE, SECONDS_PER_YEAR};

fn id(n: u64) -> AccountId {
    AccountId { w0: n, w1: 0, w2: 0, w3: 0 }
}

const ADMIN: u64 = 1;
const MINT: u64 = 2;
const VAULT: u64 = 3;
const SIGNER: u64 = 4;
const USER: u64 = 9;

fn new_pool(apy_bps: u16, lockup_seconds: u32, now: i64) -> Pool {
    initialize_pool(
        id(ADMIN),
        id(MINT),
        id(VAULT),
        255,
        id(SIGNER),
        id(MINT),
        id(SIGNER),
        apy_bps,
        lockup_seconds,
        now,
    )
    .unwrap()
}

fn new_user() -> UserStake {
    UserStake {
        owner: id(USER),
        pool: id(VAULT),
        amount_staked: 0,
        rewards_owed_fp: 0,
        user_entry_acc_rpt_fp: 0,
        stake_ts: 0,
    }
}

#[test]
fn init_accepts_apy_at_cap() {
    let pool = new_pool(10_000, 0, 100);
    assert_eq!(pool.apy_bps, 10_000);
    assert_eq!(pool.acc_reward_per_token_fp, 0);
    assert_eq!(pool.total_staked, 0);
    assert_eq!(pool.last_update_ts, 100);
    assert_eq!(pool.time_offset, 0);
    assert_eq!(pool.admin, id(ADMIN));
    assert_eq!(pool.mint, id(MINT));
    assert_eq!(pool.vault, id(VAULT));
    assert_eq!(pool.bump, 255);
}

#[test]
fn init_rejects_apy_above_cap() {
    let r = initialize_pool(
        id(ADMIN),
        id(MINT),
        id(VAULT),
        255,
        id(SIGNER),
        id(MINT),
        id(SIGNER),
        10_001,
        0,
        100,
    );
    assert_eq!(r, Err(ErrorCode::InvalidParams));
}

#[test]
fn init_rejects_vault_mismatch() {
    // vault holds the wrong asset
    let r = initialize_pool(
        id(ADMIN),
        id(MINT),
        id(VAULT),
        255,
        id(SIGNER),
        id(77),
        id(SIGNER),
        1000,
        0,
        100,
    );
    assert_eq!(r, Err(ErrorCode::InvalidVault));
    // vault is not owned by the pool's signing authority
    let r = initialize_pool(
        id(ADMIN),
        id(MINT),
        id(VAULT),
        255,
        id(SIGNER),
        id(MINT),
        id(77),
        1000,
        0,
        100,
    );
    assert_eq!(r, Err(ErrorCode::InvalidVault));
}

#[test]
fn init_derives_rate() {
    // rate = apy_bps * 2^64 / 10000 / 31_536_000, floored at each division
    assert_eq!(new_pool(1000, 0, 0).reward_rate_fp, 58_494_241_735);
    assert_eq!(new_pool(10_000, 0, 0).reward_rate_fp, 584_942_417_355);
    assert_eq!(new_pool(0, 0, 0).reward_rate_fp, 0);
}

#[test]
fn stake_rejects_zero_amount() {
    let mut pool = new_pool(1000, 0, 0);
    let mut user = new_user();
    assert_eq!(stake(&mut pool, &mut user, 0, 0), Err(ErrorCode::ZeroAmount));
    assert_eq!(pool.total_staked, 0);
}

#[test]
fn stake_arms_lockup_only_from_zero() {
    let mut pool = new_pool(1000, 100, 50);
    let mut user = new_user();
    stake(&mut pool, &mut user, 10, 50).unwrap();
    assert_eq!(user.stake_ts, 50);
    // topping up an existing position must not re-arm the lockup clock
    stake(&mut pool, &mut user, 10, 60).unwrap();
    assert_eq!(user.stake_ts, 50);
    assert_eq!(user.amount_staked, 20);
    assert_eq!(pool.total_staked, 20);
    // a full withdrawal and a fresh stake re-arm it
    unstake(&mut pool, &mut user, 20, 150).unwrap();
    assert_eq!(user.amount_staked, 0);
    stake(&mut pool, &mut user, 5, 170).unwrap();
    assert_eq!(user.stake_ts, 170);
}

#[test]
fn settle_pool_idempotent() {
    let mut pool = new_pool(1000, 0, 0);
    let mut user = new_user();
    stake(&mut pool, &mut user, 1_000_000, 0).unwrap();
    update_pool_rewards(&mut pool, 500).unwrap();
    let settled = pool;
    assert!(settled.acc_reward_per_token_fp > 0);
    // a second roll-forward to the same instant changes no field
    update_pool_rewards(&mut pool, 500).unwrap();
    assert_eq!(pool, settled);
    // neither does one to an earlier instant
    update_pool_rewards(&mut pool, 400).unwrap();
    assert_eq!(pool, settled);
}

#[test]
fn settle_forfeits_stakeless_interval() {
    let mut pool = new_pool(1000, 0, 0);
    update_pool_rewards(&mut pool, 1000).unwrap();
    // nobody was staked, so the interval's reward is gone for good
    assert_eq!(pool.acc_reward_per_token_fp, 0);
    assert_eq!(pool.last_update_ts, 1000);
}

#[test]
fn lockup_gate_boundary() {
    let mut pool = new_pool(1000, 100, 1000);
    let mut user = new_user();
    stake(&mut pool, &mut user, 500, 1000).unwrap();
    assert_eq!(user.stake_ts, 1000);
    // one second short of the lockup fails...
    assert_eq!(unstake(&mut pool, &mut user, 500, 1099), Err(ErrorCode::Lockup));
    assert_eq!(user.amount_staked, 500);
    // ...and exactly at expiry succeeds
    unstake(&mut pool, &mut user, 500, 1100).unwrap();
    assert_eq!(user.amount_staked, 0);
    assert_eq!(pool.total_staked, 0);
}

#[test]
fn claim_zero_payout_succeeds() {
    let mut pool = new_pool(1000, 0, 0);
    let mut user = new_user();
    stake(&mut pool, &mut user, 100, 0).unwrap();
    assert_eq!(claim(&mut pool, &mut user, 0), Ok(0));
}

#[test]
fn year_accrual_pays_ten_percent() {
    // 10% APY over exactly one year on 1_000_000 units
    let mut pool = new_pool(1000, 0, 0);
    let mut user = new_user();
    stake(&mut pool, &mut user, 1_000_000, 0).unwrap();
    let paid = claim(&mut pool, &mut user, SECONDS_PER_YEAR).unwrap();
    assert_eq!(pool.acc_reward_per_token_fp, 1_844_674_407_354_960_000);
    // one unit short of 100_000 to fixed-point truncation
    assert_eq!(paid, 99_999);
    assert_eq!(user.rewards_owed_fp, 18_446_728_078_547_951_616);
    assert!(user.rewards_owed_fp < FP_ONE);
}

#[test]
fn two_stakers_earn_proportionally() {
    let half_year = SECONDS_PER_YEAR / 2;
    let mut pool = new_pool(1000, 0, 0);
    let mut a = new_user();
    let mut b = UserStake { owner: id(10), ..new_user() };
    stake(&mut pool, &mut a, 1_000_000_000, 0).unwrap();
    stake(&mut pool, &mut b, 1_000_000_000, half_year).unwrap();
    assert_eq!(b.user_entry_acc_rpt_fp, pool.acc_reward_per_token_fp);
    // the pool total always equals the sum of the participants' stakes
    assert_eq!(pool.total_staked, a.amount_staked + b.amount_staked);
    let paid_a = claim(&mut pool, &mut a, 2 * half_year).unwrap();
    let paid_b = claim(&mut pool, &mut b, 2 * half_year).unwrap();
    // A was alone for the first half-year and shared the second;
    // B only shared the second half-year.
    assert_eq!(paid_a, 99_999_999);
    assert_eq!(paid_b, 49_999_999);
    // no snapshot ever runs ahead of the accumulator
    assert!(a.user_entry_acc_rpt_fp <= pool.acc_reward_per_token_fp);
    assert!(b.user_entry_acc_rpt_fp <= pool.acc_reward_per_token_fp);
}

#[test]
fn settle_participant_exact() {
    let mut pool = new_pool(1000, 0, 0);
    pool.acc_reward_per_token_fp = 7 * FP_ONE + 5;
    pool.total_staked = 40;
    let mut user = new_user();
    user.amount_staked = 40;
    user.user_entry_acc_rpt_fp = 3 * FP_ONE + 1;
    user.rewards_owed_fp = 11;
    update_user_rewards(&mut user, &pool).unwrap();
    // owed grows by amount * (acc - entry), and the snapshot is re-based
    assert_eq!(user.rewards_owed_fp, 11 + 40 * (4 * FP_ONE + 4));
    assert_eq!(user.user_entry_acc_rpt_fp, pool.acc_reward_per_token_fp);
    // settling again immediately credits nothing
    update_user_rewards(&mut user, &pool).unwrap();
    assert_eq!(user.rewards_owed_fp, 11 + 40 * (4 * FP_ONE + 4));
}

#[test]
fn set_params_changes_rate_prospectively() {
    let half_year = SECONDS_PER_YEAR / 2;
    let mut pool = new_pool(1000, 0, 0);
    let mut user = new_user();
    stake(&mut pool, &mut user, 1_000_000_000, 0).unwrap();
    set_params(&mut pool, id(ADMIN), 2000, 0, half_year).unwrap();
    assert_eq!(pool.apy_bps, 2000);
    assert_eq!(pool.reward_rate_fp, 116_988_483_471);
    // the first half-year was settled at the old rate before the change
    assert_eq!(pool.acc_reward_per_token_fp, 922_337_203_677_480_000);
    let paid = claim(&mut pool, &mut user, 2 * half_year).unwrap();
    // 10% for half a year plus 20% for half a year, no retroactivity:
    // strictly between 10% (99_999_999) and 20% (199_999_999) of the stake
    assert_eq!(paid, 149_999_999);
}

#[test]
fn set_params_requires_admin() {
    let mut pool = new_pool(1000, 0, 0);
    let before = pool;
    assert_eq!(set_params(&mut pool, id(77), 2000, 0, 10), Err(ErrorCode::Unauthorized));
    assert_eq!(pool, before);
}

#[test]
fn set_params_validates_apy() {
    let mut pool = new_pool(1000, 0, 0);
    let before = pool;
    assert_eq!(set_params(&mut pool, id(ADMIN), 10_001, 0, 10), Err(ErrorCode::InvalidParams));
    assert_eq!(pool, before);
    set_params(&mut pool, id(ADMIN), 10_000, 3, 10).unwrap();
    assert_eq!(pool.apy_bps, 10_000);
    assert_eq!(pool.lockup_seconds, 3);
}

#[test]
fn set_time_offset_admin_gate_and_effect() {
    let mut pool = new_pool(1000, 0, 0);
    assert_eq!(set_time_offset(&mut pool, id(77), 42), Err(ErrorCode::Unauthorized));
    assert_eq!(pool.time_offset, 0);
    set_time_offset(&mut pool, id(ADMIN), 42).unwrap();
    assert_eq!(pool.time_offset, 42);
    assert_eq!(now_ts(&pool, 1000), 1042);
    // the offset addition saturates instead of wrapping
    set_time_offset(&mut pool, id(ADMIN), i64::MAX).unwrap();
    assert_eq!(now_ts(&pool, 1000), i64::MAX);
    set_time_offset(&mut pool, id(ADMIN), i64::MIN).unwrap();
    assert_eq!(now_ts(&pool, -1000), i64::MIN);
}

#[test]
fn repeated_claims_conserve_reward() {
    // the sum of integer payouts plus the final remainder equals the total
    // fixed-point reward ever credited
    let mut pool = new_pool(777, 0, 0);
    let mut user = new_user();
    stake(&mut pool, &mut user, 12_345_678, 0).unwrap();
    let entry = user.user_entry_acc_rpt_fp;
    let payouts = [
        claim(&mut pool, &mut user, 1_000).unwrap(),
        claim(&mut pool, &mut user, 2_500).unwrap(),
        claim(&mut pool, &mut user, 10_000).unwrap(),
    ];
    assert_eq!(payouts, [30, 46, 228]);
    let mut paid_total: u128 = 0;
    for paid in payouts {
        paid_total += paid as u128;
    }
    // the participant held a constant stake throughout, so the total credit
    // is the stake times the accumulator's whole advance
    let credited = 12_345_678u128 * (pool.acc_reward_per_token_fp - entry);
    assert_eq!(user.rewards_owed_fp, 3_303_641_234_010_148_736);
    assert_eq!(paid_total * FP_ONE + user.rewards_owed_fp, credited);
}

#[test]
fn settle_underflow_detected() {
    let mut pool = new_pool(1000, 0, 0);
    let mut user = new_user();
    // a snapshot ahead of the accumulator is an internal-consistency error
    user.user_entry_acc_rpt_fp = 1;
    assert_eq!(stake(&mut pool, &mut user, 10, 0), Err(ErrorCode::Underflow));
    assert_eq!(user.user_entry_acc_rpt_fp, 1);
    assert_eq!(pool.total_staked, 0);
}

#[test]
fn settle_overflow_detected() {
    // the wide product elapsed * rate * total_staked no longer fits
    let mut pool = new_pool(1000, 0, 0);
    pool.reward_rate_fp = u128::MAX;
    pool.total_staked = 2;
    let mut user = new_user();
    user.amount_staked = 2;
    let before = pool;
    assert_eq!(stake(&mut pool, &mut user, 1, 1), Err(ErrorCode::Overflow));
    assert_eq!(pool, before);
    // the accumulator addition no longer fits
    let mut pool = new_pool(10_000, 0, 0);
    pool.acc_reward_per_token_fp = u128::MAX;
    pool.reward_rate_fp = FP_ONE;
    pool.total_staked = 1;
    let mut user = new_user();
    user.amount_staked = 1;
    user.user_entry_acc_rpt_fp = u128::MAX;
    assert_eq!(claim(&mut pool, &mut user, 1), Err(ErrorCode::Overflow));
}

#[test]
fn stake_overflow_on_balances() {
    // the participant's balance would overflow
    let mut pool = new_pool(0, 0, 0);
    pool.total_staked = u64::MAX;
    let mut user = new_user();
    user.amount_staked = u64::MAX;
    assert_eq!(stake(&mut pool, &mut user, 1, 0), Err(ErrorCode::Overflow));
    assert_eq!(user.amount_staked, u64::MAX);
    // the pool total would overflow
    let mut pool = new_pool(0, 0, 0);
    pool.total_staked = u64::MAX;
    let mut user = new_user();
    assert_eq!(stake(&mut pool, &mut user, 1, 0), Err(ErrorCode::Overflow));
    assert_eq!(pool.total_staked, u64::MAX);
}

#[test]
fn unstake_rejects_zero_and_insufficient() {
    let mut pool = new_pool(1000, 0, 0);
    let mut user = new_user();
    stake(&mut pool, &mut user, 50, 0).unwrap();
    assert_eq!(unstake(&mut pool, &mut user, 0, 0), Err(ErrorCode::ZeroAmount));
    assert_eq!(unstake(&mut pool, &mut user, 51, 0), Err(ErrorCode::InsufficientStake));
    assert_eq!(user.amount_staked, 50);
    assert_eq!(pool.total_staked, 50);
}

#[test]
fn unstake_keeps_accrued_reward() {
    let mut pool = new_pool(1000, 0, 0);
    let mut user = new_user();
    stake(&mut pool, &mut user, 1_000_000, 0).unwrap();
    unstake(&mut pool, &mut user, 1_000_000, 1_000).unwrap();
    // principal is gone but the settled reward stays claimable
    assert_eq!(user.amount_staked, 0);
    assert!(user.rewards_owed_fp > 0);
    assert_eq!(user.user_entry_acc_rpt_fp, pool.acc_reward_per_token_fp);
}

#[test]
fn record_survives_full_withdrawal() {
    let mut pool = new_pool(1000, 0, 0);
    let mut user = new_user();
    stake(&mut pool, &mut user, 1_000_000, 0).unwrap();
    unstake(&mut pool, &mut user, 1_000_000, 1_000).unwrap();
    let owed_after_exit = user.rewards_owed_fp;
    // while out of the pool the record accrues nothing new
    stake(&mut pool, &mut user, 2_000_000, 5_000).unwrap();
    assert_eq!(user.rewards_owed_fp, owed_after_exit);
    assert_eq!(user.stake_ts, 5_000);
    assert_eq!(user.user_entry_acc_rpt_fp, pool.acc_reward_per_token_fp);
}
