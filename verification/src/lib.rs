//! A two-asset StableSwap liquidity pool: a Curve-style invariant keeps the
//! exchange rate near parity, liquidity in any ratio is priced by the
//! invariant's growth, and fees accrue to the pool's shareholders with a
//! carved-out admin share. Around the core sit a simpler migration path at a
//! fixed near-1:1 rate, a reward-farming layer for staked pool shares, a
//! commit-reveal handshake guarding amplification changes, and a lowering of
//! Anchor-style program descriptions used alongside the pool programs.
//!
//! Asset custody stays outside: every operation takes the external ledger's
//! relevant holdings as arguments, validates them against the tracked
//! balances, and returns the amounts the ledger must move. Each operation
//! either completes whole or returns its error with no state changed.

use vstd::prelude::*;

pub mod error;
pub mod farming;
pub mod amp;
pub mod arith;
pub mod codegen;
pub mod liquidity;
pub mod hashing;
pub mod pool;
pub mod solver;
pub mod swap;

verus! {

/// Default amplification coefficient: higher means closer to constant-sum.
pub const DEFAULT_AMPLIFICATION: u64 = 1000;

/// Largest accepted amplification coefficient.
pub const MAX_AMPLIFICATION: u64 = 10000;

/// Smallest accepted amplification coefficient.
pub const MIN_AMPLIFICATION: u64 = 1;

/// Swap fee in basis points.
pub const SWAP_FEE_BPS: u64 = 4;

/// Admin share of collected fees, in percent.
pub const ADMIN_FEE_PERCENT: u64 = 50;

/// Number of assets in the pool.
pub const N_COINS: u128 = 2;

/// Iteration bound for Newton's method.
pub const MAX_ITERATIONS: u64 = 255;

/// Convergence threshold for Newton's method.
pub const CONVERGENCE_THRESHOLD: u128 = 1;

/// Pool-share amount locked forever by the first deposit.
pub const MINIMUM_LIQUIDITY: u64 = 1000;

/// Decimals both pool assets use.
pub const TOKEN_DECIMALS: u8 = 6;

/// Timelock on authority transfer, in seconds (48 hours).
pub const AUTHORITY_TIMELOCK: i64 = 172800;

/// Smallest swap the pool accepts.
pub const MIN_SWAP_AMOUNT: u64 = 100_000;

/// Smallest first deposit, per side.
pub const MIN_INITIAL_DEPOSIT: u64 = 100_000_000;

/// Shortest accepted amplification ramp, in seconds (1 day).
pub const MIN_RAMP_DURATION: i64 = 86400;

/// Largest accepted amplification change per ramp (a factor).
pub const MAX_AMP_CHANGE: u64 = 10;

/// Largest accepted slippage tolerance, in basis points.
pub const MAX_SLIPPAGE_BPS: u64 = 500;

/// Delay between committing an amplification ramp and revealing it (1 hour).
pub const AMP_COMMIT_DELAY: i64 = 3600;

/// Migration swap fee in milli-basis-points: fee = amount * 1337 / 1_000_000.
pub const MIGRATION_FEE_MILLI_BPS: u64 = 1337;

/// Shortest accepted farming period, in seconds (1 day).
pub const MIN_FARMING_DURATION: i64 = 86400;

/// Fixed-point scale of the farming reward-per-share accumulator.
pub const REWARD_PRECISION: u128 = 1_000_000_000_000;

} // verus!
