//! Data model: the pool ledger, the per-participant record, identities and
//! the error taxonomy.

use vstd::prelude::*;

verus! {

/// A 256-bit account identity (admin, mint, vault, participant, signer),
/// held as four 64-bit words. The accounting logic only ever compares
/// identities for equality.
#[derive(Clone, Copy, Debug, PartialEq, Eq, Structural)]
pub struct AccountId {
    pub w0: u64,
    pub w1: u64,
    pub w2: u64,
    pub w3: u64,
}

/// Global per-pool ledger state.
#[derive(Clone, Copy, Debug, PartialEq, Eq, Structural)]
pub struct Pool {
    /// Identity authorized to change parameters.
    pub admin: AccountId,
    /// Identity of the staked asset.
    pub mint: AccountId,
    /// Custodial account holding the staked funds.
    pub vault: AccountId,
    /// Derivation tag of the pool's signing authority; opaque to the
    /// accounting logic.
    pub bump: u8,
    /// Nominal annual yield in basis points, 0..=10000.
    pub apy_bps: u16,
    /// Minimum dwell time in seconds before principal may be withdrawn;
    /// 0 disables the lockup.
    pub lockup_seconds: u32,
    /// Q64.64 accumulator: total reward earned per staked unit since genesis.
    /// Monotonically non-decreasing.
    pub acc_reward_per_token_fp: u128,
    /// Reserved; never read by the accounting logic.
    pub rewards_owed_global_fp: u128,
    /// Timestamp through which `acc_reward_per_token_fp` has been rolled
    /// forward.
    pub last_update_ts: i64,
    /// Q64.64 per-second yield fraction, derived from `apy_bps`.
    pub reward_rate_fp: u128,
    /// Sum of all participants' staked amounts.
    pub total_staked: u64,
    /// Signed test-only clock adjustment; zero in production use.
    pub time_offset: i64,
}

/// Per-(pool, participant) record, created on first stake and never
/// destroyed.
#[derive(Clone, Copy, Debug, PartialEq, Eq, Structural)]
pub struct UserStake {
    /// The participant's identity.
    pub owner: AccountId,
    /// The pool this record belongs to.
    pub pool: AccountId,
    /// Current principal.
    pub amount_staked: u64,
    /// Q64.64 unclaimed reward.
    pub rewards_owed_fp: u128,
    /// Snapshot of the pool accumulator at this participant's last
    /// settlement.
    pub user_entry_acc_rpt_fp: u128,
    /// Timestamp of the most recent transition from zero to nonzero stake;
    /// gates lockup expiry.
    pub stake_ts: i64,
}

/// Why an operation was rejected. Every failure leaves both the pool and the
/// participant record exactly as they were.
#[derive(Clone, Copy, Debug, PartialEq, Eq, Structural)]
pub enum ErrorCode {
    /// A stake or unstake requested with amount 0.
    ZeroAmount,
    /// Withdrawal attempted before lockup expiry.
    Lockup,
    /// Vault identity or authority mismatch at pool creation.
    InvalidVault,
    /// A non-admin called an admin-only operation.
    Unauthorized,
    /// Annual yield above 100%.
    InvalidParams,
    /// A checked add or multiply exceeded its width.
    Overflow,
    /// Accumulator snapshot inconsistency.
    Underflow,
    /// Unstake amount exceeds the participant's balance.
    InsufficientStake,
}

/// The participant's accumulator snapshot never runs ahead of the pool
/// accumulator. Every operation preserves this, and settlement re-establishes
/// it exactly.
pub open spec fn entry_within(user: UserStake, pool: Pool) -> bool {
    user.user_entry_acc_rpt_fp <= pool.acc_reward_per_token_fp
}

/// The participant's principal is accounted for in the pool total. This is
/// the two-record face of the global invariant that `total_staked` is the sum
/// of all participants' `amount_staked`.
pub open spec fn stake_accounted(user: UserStake, pool: Pool) -> bool {
    user.amount_staked <= pool.total_staked
}

} // verus!
