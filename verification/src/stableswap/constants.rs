use vstd::prelude::*;

verus! {

/// Virtual shares locked on the first deposit, guarding against the
/// first-depositor share-inflation attack.
pub const MINIMUM_LIQUIDITY: u64 = 1_000;

/// Largest amplification coefficient `A` a pool may be created with.
pub const MAX_AMP: u64 = 1_000_000;

/// Largest swap fee in basis points (10_000 bps = 100%).
pub const MAX_FEE_BPS: u16 = 10_000;

/// Number of Newton-Raphson iterations before giving up.
pub const MAX_ITERATIONS: u8 = 255;

} // verus!
