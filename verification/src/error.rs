use vstd::prelude::*;

verus! {

/// Every way an operation against the pool, the migration path or the
/// farming layer can be refused. Checks run before any state mutation, so a
/// caller that receives an error may assume nothing was changed.
#[derive(Clone, Copy, Debug, PartialEq, Eq, Structural)]
pub enum StableSwapError {
    MathOverflow,
    SlippageExceeded,
    InsufficientLiquidity,
    InvalidMint,
    InvalidOwner,
    PoolPaused,
    Unauthorized,
    ZeroAmount,
    InvariantViolation,
    ConvergenceFailed,
    InvalidAmplification,
    FeeTooHigh,
    NoFeesToWithdraw,
    InvalidAuthority,
    NoTransferPending,
    TimelockNotExpired,
    AmountTooSmall,
    InitialDepositTooSmall,
    TransactionExpired,
    RampTooFast,
    AmpChangeTooLarge,
    VaultBalanceMismatch,
    InvalidFarmingPeriod,
    FarmingPeriodTooShort,
    InsufficientStake,
    NoRewardsToClaim,
    FarmingNotStarted,
    FarmingEnded,
    SlippageTooHigh,
    NoAmpCommitPending,
    AmpCommitDelayNotPassed,
    AmpCommitMismatch,
    AlreadyInitialized,
}

} // verus!
