use vstd::prelude::*;

verus! {

/// Reasons a StableSwap instruction is rejected.
#[derive(Debug, Clone, Copy, PartialEq, Eq, Structural)]
pub enum StableSwapError {
    /// Amplification parameter must be between 1 and 1,000,000.
    InvalidAmplification,
    /// Fee exceeds maximum of 100%.
    InvalidFee,
    /// Token mint decimals must match.
    InvalidMintDecimals,
    /// Slippage exceeded: output less than minimum.
    SlippageExceeded,
    /// Insufficient liquidity in pool.
    InsufficientLiquidity,
    /// Math overflow.
    MathOverflow,
    /// Zero amount not allowed.
    ZeroAmount,
    /// Convergence failed in Newton's method.
    ConvergenceFailed,
    /// Pool is empty.
    EmptyPool,
    /// Initial liquidity too small.
    InsufficientInitialLiquidity,
    /// Invalid vault account.
    InvalidVault,
    /// Invalid token mint.
    InvalidMint,
}

} // verus!
