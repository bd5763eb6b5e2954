//! A single-asset staking pool with continuously accruing, proportional
//! rewards.
//!
//! Rewards are tracked with a lazily settled fixed-point accumulator
//! (`acc_reward_per_token_fp`, Q64.64): every mutating operation first rolls
//! the pool accumulator forward to the current time, then folds the
//! participant's pending share into their owed balance, and only then applies
//! its own state change. Token custody, account plumbing and the wall clock
//! are kept outside this crate; the operations here take the current time as
//! an argument and report the transfer the caller must perform.

use vstd::prelude::*;

pub mod engine;
pub mod laws;
pub mod ops;
pub mod state;

verus! {

/// Number of seconds in the accrual year used to derive the per-second rate.
pub const SECONDS_PER_YEAR: i64 = 31_536_000;

/// Fixed-point scale: one whole token in Q64.64 representation (2^64).
pub const FP_ONE: u128 = 0x1_0000_0000_0000_0000;

} // verus!
