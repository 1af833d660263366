use vstd::prelude::*;

use crate::pubkey::Pubkey;
use crate::stableswap::constants::MINIMUM_LIQUIDITY;
use crate::stableswap::errors::StableSwapError;
use crate::stableswap::state::Pool;

verus! {

/// What a withdrawal reads from its accounts: the pool, the addresses of the
/// vault and LP-mint accounts passed in, the two vault balances and the LP
/// supply.
pub struct RemoveLiquidity {
    pub pool: Pool,
    pub vault_a: Pubkey,
    pub vault_a_amount: u64,
    pub vault_b: Pubkey,
    pub vault_b_amount: u64,
    pub lp_mint: Pubkey,
    pub lp_supply: u64,
}

/// The token movements of an accepted withdrawal: `lp_burned` LP tokens are
/// burned from the user, `amount_a` and `amount_b` go from the vaults to the
/// user (a zero amount moves nothing).
#[derive(Clone, Copy, Debug, PartialEq, Eq, Structural)]
pub struct RemoveLiquidityOutcome {
    pub lp_burned: u64,
    pub amount_a: u64,
    pub amount_b: u64,
}

/// The share of `reserve` that `lp_amount` LP tokens redeem when the supply,
/// counting the locked `MINIMUM_LIQUIDITY`, is `adjusted_supply`, rounded
/// down.
pub open spec fn pro_rata(reserve: u64, lp_amount: u64, adjusted_supply: int) -> int {
    reserve * lp_amount / adjusted_supply
}

/// The outcome of burning `lp_amount` LP tokens with minimum outputs
/// `min_a` and `min_b`.
pub open spec fn spec_remove_liquidity(ctx: RemoveLiquidity, lp_amount: u64, min_a: u64, min_b: u64) -> Result<
    RemoveLiquidityOutcome,
    StableSwapError,
> {
    let adjusted = ctx.lp_supply + MINIMUM_LIQUIDITY;
    let amount_a = pro_rata(ctx.vault_a_amount, lp_amount, adjusted);
    let amount_b = pro_rata(ctx.vault_b_amount, lp_amount, adjusted);
    if ctx.vault_a@ != ctx.pool.vault_a@ || ctx.vault_b@ != ctx.pool.vault_b@ {
        Err(StableSwapError::InvalidVault)
    } else if ctx.lp_mint@ != ctx.pool.lp_mint@ {
        Err(StableSwapError::InvalidMint)
    } else if lp_amount == 0 {
        Err(StableSwapError::ZeroAmount)
    } else if lp_amount > ctx.lp_supply {
        Err(StableSwapError::InsufficientLiquidity)
    } else if amount_a < min_a || amount_b < min_b {
        Err(StableSwapError::SlippageExceeded)
    } else {
        Ok(
            RemoveLiquidityOutcome {
                lp_burned: lp_amount,
                amount_a: amount_a as u64,
                amount_b: amount_b as u64,
            },
        )
    }
}

/// Burns `lp_amount` LP tokens and pays out the same share of each reserve,
/// refusing when either payout is below its minimum.
///
/// The share is taken of the supply plus the `MINIMUM_LIQUIDITY` locked at
/// the first deposit, which the on-chain supply does not count.
pub fn remove_liquidity_handler(ctx: &RemoveLiquidity, lp_amount: u64, min_a: u64, min_b: u64) -> (r: Result<
    RemoveLiquidityOutcome,
    StableSwapError,
>)
    ensures
        r == spec_remove_liquidity(*ctx, lp_amount, min_a, min_b),
        r matches Ok(o) ==> {
            &&& o.amount_a <= ctx.vault_a_amount
            &&& o.amount_b <= ctx.vault_b_amount
            &&& (ctx.vault_a_amount > 0 ==> o.amount_a < ctx.vault_a_amount)
            &&& (ctx.vault_b_amount > 0 ==> o.amount_b < ctx.vault_b_amount)
            &&& o.amount_a >= min_a
            &&& o.amount_b >= min_b
        },
{
    if !(ctx.vault_a == ctx.pool.vault_a) || !(ctx.vault_b == ctx.pool.vault_b) {
        return Err(StableSwapError::InvalidVault);
    }
    if !(ctx.lp_mint == ctx.pool.lp_mint) {
        return Err(StableSwapError::InvalidMint);
    }
    if !(lp_amount > 0) {
        return Err(StableSwapError::ZeroAmount);
    }
    let reserve_a = ctx.vault_a_amount as u128;
    let reserve_b = ctx.vault_b_amount as u128;
    // The on-chain supply leaves out the virtual MINIMUM_LIQUIDITY shares.
    let actual_supply = ctx.lp_supply;
    let adjusted_supply = actual_supply as u128 + MINIMUM_LIQUIDITY as u128;
    if !(lp_amount as u128 <= actual_supply as u128) {
        return Err(StableSwapError::InsufficientLiquidity);
    }
    proof {
        lemma_pro_rata_bounded(ctx.vault_a_amount, lp_amount, adjusted_supply as int);
        lemma_pro_rata_bounded(ctx.vault_b_amount, lp_amount, adjusted_supply as int);
    }
    let amount_a = (reserve_a * lp_amount as u128 / adjusted_supply) as u64;
    let amount_b = (reserve_b * lp_amount as u128 / adjusted_supply) as u64;
    if !(amount_a >= min_a) {
        return Err(StableSwapError::SlippageExceeded);
    }
    if !(amount_b >= min_b) {
        return Err(StableSwapError::SlippageExceeded);
    }
    Ok(RemoveLiquidityOutcome { lp_burned: lp_amount, amount_a, amount_b })
}

/// A share of less than the whole adjusted supply redeems less than the
/// whole (non-empty) reserve, and its product fits in `u128`.
pub proof fn lemma_pro_rata_bounded(reserve: u64, lp_amount: u64, adjusted_supply: int)
    requires
        0 < lp_amount < adjusted_supply,
    ensures
        reserve * lp_amount <= u128::MAX,
        0 <= pro_rata(reserve, lp_amount, adjusted_supply) <= reserve,
        reserve > 0 ==> pro_rata(reserve, lp_amount, adjusted_supply) < reserve,
{
    assert(reserve * lp_amount <= u64::MAX * u64::MAX) by (nonlinear_arith);
    assert(reserve * lp_amount <= reserve * adjusted_supply) by (nonlinear_arith)
        requires
            lp_amount < adjusted_supply,
    ;
    assert(reserve * lp_amount / adjusted_supply <= reserve) by (nonlinear_arith)
        requires
            reserve * lp_amount <= reserve * adjusted_supply,
            adjusted_supply > 0,
            reserve >= 0,
    ;
    if reserve > 0 {
        assert(reserve * lp_amount < reserve * adjusted_supply) by (nonlinear_arith)
            requires
                lp_amount < adjusted_supply,
                reserve > 0,
        ;
        assert(reserve * lp_amount / adjusted_supply < reserve) by (nonlinear_arith)
            requires
                reserve * lp_amount < reserve * adjusted_supply,
                adjusted_supply > 0,
        ;
    }
    assert(reserve * lp_amount / adjusted_supply >= 0) by (nonlinear_arith)
        requires
            reserve * lp_amount >= 0,
            adjusted_supply > 0,
    ;
}

} // verus!
