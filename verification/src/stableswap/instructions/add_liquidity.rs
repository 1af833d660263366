use vstd::prelude::*;

use crate::pubkey::Pubkey;
use crate::stableswap::constants::MINIMUM_LIQUIDITY;
use crate::stableswap::errors::StableSwapError;
use crate::stableswap::math::{calculate_lp_mint_amount, spec_calculate_lp_mint_amount};
use crate::stableswap::state::Pool;

verus! {

/// What a deposit reads from its accounts: the pool, the addresses of the
/// vault and LP-mint accounts passed in, the two vault balances and the LP
/// supply.
pub struct AddLiquidity {
    pub pool: Pool,
    pub vault_a: Pubkey,
    pub vault_a_amount: u64,
    pub vault_b: Pubkey,
    pub vault_b_amount: u64,
    pub lp_mint: Pubkey,
    pub lp_supply: u64,
}

/// The token movements of an accepted deposit: `deposit_a` and `deposit_b`
/// go from the user to the vaults (a zero amount moves nothing), and
/// `lp_minted` LP tokens are minted to the user.
#[derive(Clone, Copy, Debug, PartialEq, Eq, Structural)]
pub struct AddLiquidityOutcome {
    pub deposit_a: u64,
    pub deposit_b: u64,
    pub lp_minted: u64,
}

/// The outcome of depositing `amount_a` and `amount_b` with minimum
/// `min_lp_out` LP tokens.
pub open spec fn spec_add_liquidity(ctx: AddLiquidity, amount_a: u64, amount_b: u64, min_lp_out: u64) -> Result<
    AddLiquidityOutcome,
    StableSwapError,
> {
    let reserve_a = ctx.vault_a_amount as u128;
    let reserve_b = ctx.vault_b_amount as u128;
    if ctx.vault_a@ != ctx.pool.vault_a@ || ctx.vault_b@ != ctx.pool.vault_b@ {
        Err(StableSwapError::InvalidVault)
    } else if ctx.lp_mint@ != ctx.pool.lp_mint@ {
        Err(StableSwapError::InvalidMint)
    } else if amount_a == 0 && amount_b == 0 {
        Err(StableSwapError::ZeroAmount)
    } else {
        match spec_calculate_lp_mint_amount(
            reserve_a,
            reserve_b,
            (reserve_a + amount_a) as u128,
            (reserve_b + amount_b) as u128,
            ctx.lp_supply as u128,
            ctx.pool.amplification as u128,
            MINIMUM_LIQUIDITY,
        ) {
            Err(e) => Err(e),
            Ok(lp) => if lp < min_lp_out {
                Err(StableSwapError::SlippageExceeded)
            } else if lp == 0 {
                Err(StableSwapError::ZeroAmount)
            } else {
                Ok(AddLiquidityOutcome { deposit_a: amount_a, deposit_b: amount_b, lp_minted: lp })
            },
        }
    }
}

/// Deposits `amount_a` of token A and `amount_b` of token B (either may be
/// zero, not both) in exchange for LP tokens, refusing when fewer than
/// `min_lp_out` would be minted or none at all.
///
/// The first deposit mints `D − MINIMUM_LIQUIDITY`; later ones mint in
/// proportion to the growth of the invariant `D`.
pub fn add_liquidity_handler(ctx: &AddLiquidity, amount_a: u64, amount_b: u64, min_lp_out: u64) -> (r: Result<
    AddLiquidityOutcome,
    StableSwapError,
>)
    ensures
        r == spec_add_liquidity(*ctx, amount_a, amount_b, min_lp_out),
        r matches Ok(o) ==> o.lp_minted >= min_lp_out && o.lp_minted > 0,
{
    if !(ctx.vault_a == ctx.pool.vault_a) || !(ctx.vault_b == ctx.pool.vault_b) {
        return Err(StableSwapError::InvalidVault);
    }
    if !(ctx.lp_mint == ctx.pool.lp_mint) {
        return Err(StableSwapError::InvalidMint);
    }
    if !(amount_a > 0 || amount_b > 0) {
        return Err(StableSwapError::ZeroAmount);
    }
    let reserve_a = ctx.vault_a_amount as u128;
    let reserve_b = ctx.vault_b_amount as u128;
    let lp_supply = ctx.lp_supply as u128;
    let amp = ctx.pool.amplification as u128;
    let new_reserve_a = reserve_a + amount_a as u128;
    let new_reserve_b = reserve_b + amount_b as u128;
    let lp_to_mint = calculate_lp_mint_amount(
        reserve_a,
        reserve_b,
        new_reserve_a,
        new_reserve_b,
        lp_supply,
        amp,
        MINIMUM_LIQUIDITY,
    )?;
    if !(lp_to_mint >= min_lp_out) {
        return Err(StableSwapError::SlippageExceeded);
    }
    if !(lp_to_mint > 0) {
        return Err(StableSwapError::ZeroAmount);
    }
    Ok(AddLiquidityOutcome { deposit_a: amount_a, deposit_b: amount_b, lp_minted: lp_to_mint })
}

} // verus!
