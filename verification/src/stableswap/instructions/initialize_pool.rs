use vstd::prelude::*;

use crate::pubkey::Pubkey;
use crate::stableswap::constants::{MAX_AMP, MAX_FEE_BPS};
use crate::stableswap::errors::StableSwapError;
use crate::stableswap::state::Pool;

verus! {

/// What creating a pool reads from its accounts: the addresses of the
/// admin, the two mints, the LP mint and the two vaults, the decimals of the
/// two mints, and the bump of the pool address.
pub struct InitializePool {
    pub admin: Pubkey,
    pub token_mint_a: Pubkey,
    pub token_mint_a_decimals: u8,
    pub token_mint_b: Pubkey,
    pub token_mint_b_decimals: u8,
    pub lp_mint: Pubkey,
    pub vault_a: Pubkey,
    pub vault_b: Pubkey,
    pub pool_bump: u8,
}

/// The error, if any, with which creating a pool is rejected, checks taken
/// in order.
pub open spec fn initialize_pool_error(ctx: InitializePool, amplification: u64, fee_bps: u16) -> Option<StableSwapError> {
    if !(amplification > 0 && amplification <= MAX_AMP) {
        Some(StableSwapError::InvalidAmplification)
    } else if fee_bps > MAX_FEE_BPS {
        Some(StableSwapError::InvalidFee)
    } else if ctx.token_mint_a@ == ctx.token_mint_b@ {
        Some(StableSwapError::InvalidMint)
    } else if ctx.token_mint_a_decimals != ctx.token_mint_b_decimals {
        Some(StableSwapError::InvalidMintDecimals)
    } else {
        None
    }
}

/// Creates a pool for the pair `token_mint_a` / `token_mint_b`.
///
/// Rejects an amplification outside `1..=MAX_AMP`, a fee above
/// `MAX_FEE_BPS`, a pair of one mint with itself and mints of different
/// decimals; otherwise returns the new pool state.
pub fn initialize_pool_handler(ctx: &InitializePool, amplification: u64, fee_bps: u16) -> (r: Result<Pool, StableSwapError>)
    ensures
        match r {
            Err(e) => initialize_pool_error(*ctx, amplification, fee_bps) == Some(e),
            Ok(pool) => {
                &&& initialize_pool_error(*ctx, amplification, fee_bps) is None
                &&& pool.admin@ == ctx.admin@
                &&& pool.token_mint_a@ == ctx.token_mint_a@
                &&& pool.vault_a@ == ctx.vault_a@
                &&& pool.token_mint_b@ == ctx.token_mint_b@
                &&& pool.vault_b@ == ctx.vault_b@
                &&& pool.lp_mint@ == ctx.lp_mint@
                &&& pool.amplification == amplification
                &&& pool.fee_bps == fee_bps
                &&& pool.bump == ctx.pool_bump
            },
        },
{
    if !(amplification > 0 && amplification <= MAX_AMP) {
        return Err(StableSwapError::InvalidAmplification);
    }
    if !(fee_bps <= MAX_FEE_BPS) {
        return Err(StableSwapError::InvalidFee);
    }
    if ctx.token_mint_a == ctx.token_mint_b {
        return Err(StableSwapError::InvalidMint);
    }
    if ctx.token_mint_a_decimals != ctx.token_mint_b_decimals {
        return Err(StableSwapError::InvalidMintDecimals);
    }
    Ok(
        Pool {
            admin: ctx.admin,
            token_mint_a: ctx.token_mint_a,
            vault_a: ctx.vault_a,
            token_mint_b: ctx.token_mint_b,
            vault_b: ctx.vault_b,
            lp_mint: ctx.lp_mint,
            amplification,
            fee_bps,
            bump: ctx.pool_bump,
        },
    )
}

} // verus!
