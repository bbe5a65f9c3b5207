//! A staked price oracle: robust aggregation of publisher prices, a stake
//! ledger with timed unbonding and slashing, and token-weighted governance.
//!
//! Every operation is a pure state transition over plain values. Reading the
//! clock, moving tokens and emitting notifications are left to the caller,
//! which receives the notification to emit as a return value.
use vstd::prelude::*;

pub mod types;
pub mod stats;
pub mod global;
pub mod stake;
pub mod feed;
pub mod governance;

verus! {

/// Capacity of a feed's submission table.
pub const MAX_PUBLISHERS: usize = 100;

/// Smallest balance a publisher may keep staked.
pub const MIN_STAKE_AMOUNT: u64 = 10_000_000_000;

/// A submission older than this (in time units) is stale.
pub const STALENESS_THRESHOLD: i64 = 30;

/// The most recent fresh submission older than this halts the feed.
pub const HALTED_THRESHOLD: i64 = 60;

/// Outliers lie further than this many MADs from the median.
pub const OUTLIER_MAD_MULTIPLIER: i64 = 3;

/// EMA smoothing factor, scaled by `EMA_SCALE`.
pub const EMA_ALPHA_SCALED: i64 = 100_000;

/// Fixed-point scale of the EMA smoothing factor.
pub const EMA_SCALE: i64 = 1_000_000;

/// Delay between an unstake request and its withdrawal.
pub const UNBONDING_PERIOD: i64 = 604_800;

/// Version recorded in the global state.
pub const PROGRAM_VERSION: u8 = 1;

/// Reputation a newly registered publisher starts with.
pub const INITIAL_REPUTATION: u64 = 100;

} // verus!
