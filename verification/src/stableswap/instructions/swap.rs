use vstd::prelude::*;

use crate::pubkey::Pubkey;
use crate::stableswap::errors::StableSwapError;
use crate::stableswap::math::{calculate_swap_output, spec_calculate_swap_output};
use crate::stableswap::state::Pool;

verus! {

/// What a swap reads from its accounts: the pool, the addresses of the vault
/// accounts passed in, and the balances of the two vaults.
pub struct Swap {
    pub pool: Pool,
    pub vault_a: Pubkey,
    pub vault_a_amount: u64,
    pub vault_b: Pubkey,
    pub vault_b_amount: u64,
}

/// The token movements of an accepted swap: `amount_in` goes from the user to
/// the input vault (A when `a_to_b`), `amount_out` from the output vault to
/// the user; `fee` is the part of the output kept by the pool.
#[derive(Clone, Copy, Debug, PartialEq, Eq, Structural)]
pub struct SwapOutcome {
    pub a_to_b: bool,
    pub amount_in: u64,
    pub amount_out: u64,
    pub fee: u128,
}

/// The reserves of a swap, input side first.
pub open spec fn swap_reserves(ctx: Swap, a_to_b: bool) -> (u128, u128) {
    if a_to_b {
        (ctx.vault_a_amount as u128, ctx.vault_b_amount as u128)
    } else {
        (ctx.vault_b_amount as u128, ctx.vault_a_amount as u128)
    }
}

/// The outcome of a swap of `amount_in` with minimum output `min_amount_out`:
/// the vault checks, the zero-amount and empty-pool checks, the curve, then
/// the slippage check.
pub open spec fn spec_swap(ctx: Swap, amount_in: u64, min_amount_out: u64, a_to_b: bool) -> Result<
    SwapOutcome,
    StableSwapError,
> {
    let (reserve_in, reserve_out) = swap_reserves(ctx, a_to_b);
    if ctx.vault_a@ != ctx.pool.vault_a@ || ctx.vault_b@ != ctx.pool.vault_b@ {
        Err(StableSwapError::InvalidVault)
    } else if amount_in == 0 {
        Err(StableSwapError::ZeroAmount)
    } else if ctx.vault_a_amount == 0 || ctx.vault_b_amount == 0 {
        Err(StableSwapError::EmptyPool)
    } else {
        match spec_calculate_swap_output(
            reserve_in,
            reserve_out,
            amount_in as u128,
            ctx.pool.amplification as u128,
            ctx.pool.fee_bps,
        ) {
            Err(e) => Err(e),
            Ok((amount_out, fee)) => if amount_out < min_amount_out {
                Err(StableSwapError::SlippageExceeded)
            } else {
                Ok(SwapOutcome { a_to_b, amount_in, amount_out: amount_out as u64, fee })
            },
        }
    }
}

/// Swaps `amount_in` of one token for the other along the StableSwap curve
/// (`a_to_b` chooses A→B), refusing when the output would be below
/// `min_amount_out`.
///
/// The vault accounts must be the pool's; the amount must be positive and
/// both reserves non-empty. The output never exceeds the output reserve.
pub fn swap_handler(ctx: &Swap, amount_in: u64, min_amount_out: u64, a_to_b: bool) -> (r: Result<
    SwapOutcome,
    StableSwapError,
>)
    ensures
        r == spec_swap(*ctx, amount_in, min_amount_out, a_to_b),
        r matches Ok(o) ==> o.amount_out >= min_amount_out && o.amount_out <= swap_reserves(
            *ctx,
            a_to_b,
        ).1,
{
    if !(ctx.vault_a == ctx.pool.vault_a) || !(ctx.vault_b == ctx.pool.vault_b) {
        return Err(StableSwapError::InvalidVault);
    }
    if !(amount_in > 0) {
        return Err(StableSwapError::ZeroAmount);
    }
    let reserve_a = ctx.vault_a_amount as u128;
    let reserve_b = ctx.vault_b_amount as u128;
    let amp = ctx.pool.amplification as u128;
    let fee_bps = ctx.pool.fee_bps;
    if !(reserve_a > 0 && reserve_b > 0) {
        return Err(StableSwapError::EmptyPool);
    }
    let (reserve_in, reserve_out) = if a_to_b {
        (reserve_a, reserve_b)
    } else {
        (reserve_b, reserve_a)
    };
    let (amount_out, fee) = calculate_swap_output(reserve_in, reserve_out, amount_in as u128, amp, fee_bps)?;
    if !(amount_out >= min_amount_out as u128) {
        return Err(StableSwapError::SlippageExceeded);
    }
    Ok(SwapOutcome { a_to_b, amount_in, amount_out: amount_out as u64, fee })
}

} // verus!
