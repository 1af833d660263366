//! Properties of the StableSwap arithmetic that hold across its functions.
use vstd::prelude::*;

use crate::stableswap::constants::MINIMUM_LIQUIDITY;
use crate::stableswap::errors::StableSwapError;
use crate::stableswap::instructions::add_liquidity::{spec_add_liquidity, AddLiquidity, AddLiquidityOutcome};
use crate::stableswap::instructions::remove_liquidity::{
    lemma_pro_rata_bounded, spec_remove_liquidity, RemoveLiquidity, RemoveLiquidityOutcome,
};
use crate::stableswap::instructions::swap::{spec_swap, Swap};
use crate::stableswap::math::{
    d_iterate, d_step, spec_calculate_swap_output, spec_compute_d, spec_compute_y,
};
use vstd::arithmetic::div_mod::lemma_fundamental_div_mod;

verus! {

/// In a balanced pool (both reserves equal to `x`) the invariant `D` is
/// exactly the sum of the reserves, whenever the fixed-width evaluation of
/// Newton's first step stays within `u128`.
pub proof fn lemma_balanced_pool_d(x: u128, amp: u128)
    requires
        x > 0,
        amp > 0,
        (amp * 4 + 2) * ((2 * x) * (2 * x)) <= u128::MAX,
    ensures
        spec_compute_d(x, x, amp) == Ok::<u128, StableSwapError>((2 * x) as u128),
{
    assert(amp * 4 <= (amp * 4 + 2) * ((2 * x) * (2 * x)) && 2 * x <= (amp * 4 + 2) * ((2 * x)
        * (2 * x))) by (nonlinear_arith)
        requires
            x > 0,
            amp > 0,
    ;
    let ann: u128 = (amp * 4) as u128;
    let d: u128 = (2 * x) as u128;
    assert(d * d <= (amp * 4 + 2) * (d * d)) by (nonlinear_arith)
        requires
            amp > 0,
    ;
    assert(ann * d + d * 2 == (ann + 2) * d) by (nonlinear_arith);
    assert((ann * d + d * 2) * d == (ann + 2) * (d * d)) by (nonlinear_arith);
    assert((ann - 1) * d + d * 3 == (ann + 2) * d) by (nonlinear_arith);
    assert(d * d / (x * 2) == d) by (nonlinear_arith)
        requires
            d == 2 * x,
            x > 0,
    ;
    assert(d * d / (x * 2) * d == d * d);
    assert(((ann + 2) * (d * d)) / ((ann + 2) * d) == d) by (nonlinear_arith)
        requires
            ann > 0,
            d > 0,
    ;
    assert(ann * d <= (ann + 2) * (d * d)) by (nonlinear_arith)
        requires
            ann > 0,
            d > 0,
    ;
    assert((ann + 2) * d <= (ann + 2) * (d * d)) by (nonlinear_arith)
        requires
            ann > 0,
            d > 0,
    ;
    assert(d * 3 <= (ann + 2) * (d * d)) by (nonlinear_arith)
        requires
            ann > 0,
            d > 0,
    ;
    assert(d_step(x, x, ann, d, d) == Some(d));
    assert(d_iterate(x, x, ann, d, d, 255) == Ok::<u128, StableSwapError>(d));
}

/// A swap never pays out more than the output reserve: the output and the
/// fee together are exactly what leaves the output reserve, and the fee is
/// `fee_bps` basis points of that amount, rounded down.
pub proof fn lemma_swap_output_within_reserve(
    reserve_in: u128,
    reserve_out: u128,
    amount_in: u128,
    amp: u128,
    fee_bps: u16,
    amount_out: u128,
    fee: u128,
)
    requires
        spec_calculate_swap_output(reserve_in, reserve_out, amount_in, amp, fee_bps) == Ok::<
            (u128, u128),
            StableSwapError,
        >((amount_out, fee)),
    ensures
        amount_out + fee <= reserve_out,
        fee == (amount_out + fee) * fee_bps / 10_000,
{
}

/// A swap does not depend on which token is called A: swapping A for B on
/// reserves `(x, y)` ends exactly as swapping B for A on reserves `(y, x)`,
/// with the same amount in, the same minimum output and a pool with the same
/// amplification and fee, when both swaps are given the pool's own vaults.
/// Either both are refused with the same error, or both take the same amount
/// in and pay the same amount out, keeping the same fee.
pub proof fn lemma_swap_direction_symmetric(
    forward: Swap,
    backward: Swap,
    amount_in: u64,
    min_amount_out: u64,
)
    requires
        forward.vault_a@ == forward.pool.vault_a@,
        forward.vault_b@ == forward.pool.vault_b@,
        backward.vault_a@ == backward.pool.vault_a@,
        backward.vault_b@ == backward.pool.vault_b@,
        forward.pool.amplification == backward.pool.amplification,
        forward.pool.fee_bps == backward.pool.fee_bps,
        backward.vault_a_amount == forward.vault_b_amount,
        backward.vault_b_amount == forward.vault_a_amount,
    ensures
        match (
            spec_swap(forward, amount_in, min_amount_out, true),
            spec_swap(backward, amount_in, min_amount_out, false),
        ) {
            (Err(e1), Err(e2)) => e1 == e2,
            (Ok(o1), Ok(o2)) => o1.amount_in == o2.amount_in && o1.amount_out == o2.amount_out
                && o1.fee == o2.fee,
            _ => false,
        },
{
}

/// A swap moves along the curve: the invariant `D` is that of the reserves
/// before the trade, the out-reserve after the trade is the one that keeps
/// `D` once the in-reserve has grown by `amount_in`, and what leaves the
/// out-reserve is the output plus the fee.
pub proof fn lemma_swap_follows_curve(
    reserve_in: u128,
    reserve_out: u128,
    amount_in: u128,
    amp: u128,
    fee_bps: u16,
    amount_out: u128,
    fee: u128,
)
    requires
        spec_calculate_swap_output(reserve_in, reserve_out, amount_in, amp, fee_bps) == Ok::<
            (u128, u128),
            StableSwapError,
        >((amount_out, fee)),
    ensures
        amount_in > 0,
        reserve_in + amount_in <= u128::MAX,
        amount_out + fee <= reserve_out,
        spec_compute_d(reserve_in, reserve_out, amp) matches Ok(d) && spec_compute_y(
            (reserve_in + amount_in) as u128,
            d,
            amp,
        ) == Ok::<u128, StableSwapError>((reserve_out - amount_out - fee) as u128),
{
}

/// A withdrawal pays the exact pro-rata share rounded down: for each token,
/// `amount · (lp_supply + MINIMUM_LIQUIDITY) ≤ reserve · lp_amount <
/// (amount + 1) · (lp_supply + MINIMUM_LIQUIDITY)`, and all of `lp_amount`
/// is burned.
pub proof fn lemma_remove_liquidity_pays_floor_share(
    ctx: RemoveLiquidity,
    lp_amount: u64,
    min_a: u64,
    min_b: u64,
    o: RemoveLiquidityOutcome,
)
    requires
        spec_remove_liquidity(ctx, lp_amount, min_a, min_b) == Ok::<RemoveLiquidityOutcome, StableSwapError>(o),
    ensures
        o.lp_burned == lp_amount,
        o.amount_a * (ctx.lp_supply + MINIMUM_LIQUIDITY) <= ctx.vault_a_amount * lp_amount,
        ctx.vault_a_amount * lp_amount < (o.amount_a + 1) * (ctx.lp_supply + MINIMUM_LIQUIDITY),
        o.amount_b * (ctx.lp_supply + MINIMUM_LIQUIDITY) <= ctx.vault_b_amount * lp_amount,
        ctx.vault_b_amount * lp_amount < (o.amount_b + 1) * (ctx.lp_supply + MINIMUM_LIQUIDITY),
{
    let s = ctx.lp_supply + MINIMUM_LIQUIDITY;
    lemma_pro_rata_bounded(ctx.vault_a_amount, lp_amount, s);
    lemma_pro_rata_bounded(ctx.vault_b_amount, lp_amount, s);
    lemma_floor_quotient(ctx.vault_a_amount * lp_amount, s);
    lemma_floor_quotient(ctx.vault_b_amount * lp_amount, s);
}

proof fn lemma_floor_quotient(x: int, s: int)
    requires
        x >= 0,
        s > 0,
    ensures
        (x / s) * s <= x < (x / s + 1) * s,
{
    lemma_fundamental_div_mod(x, s);
    assert((x / s) * s <= x < (x / s + 1) * s) by (nonlinear_arith)
        requires
            x == s * (x / s) + x % s,
            0 <= x % s < s,
    ;
}

/// LP tokens are minted for the deposit actually made: both amounts go in
/// as asked, the first deposit mints the invariant `D` of the reserves after
/// it less `MINIMUM_LIQUIDITY`, and a later one mints `lp_supply` times the
/// relative growth of `D` from the reserves before to the reserves after,
/// rounded down; both capped at `u64::MAX`.
pub proof fn lemma_add_liquidity_mints_growth_of_d(
    ctx: AddLiquidity,
    amount_a: u64,
    amount_b: u64,
    min_lp_out: u64,
    o: AddLiquidityOutcome,
)
    requires
        spec_add_liquidity(ctx, amount_a, amount_b, min_lp_out) == Ok::<AddLiquidityOutcome, StableSwapError>(o),
    ensures
        o.deposit_a == amount_a,
        o.deposit_b == amount_b,
        o.lp_minted >= min_lp_out,
        o.lp_minted > 0,
        ctx.lp_supply == 0 ==> (spec_compute_d(
            (ctx.vault_a_amount + amount_a) as u128,
            (ctx.vault_b_amount + amount_b) as u128,
            ctx.pool.amplification as u128,
        ) matches Ok(d) && d > MINIMUM_LIQUIDITY && o.lp_minted == (if d - MINIMUM_LIQUIDITY
            > u64::MAX {
            u64::MAX as int
        } else {
            d - MINIMUM_LIQUIDITY
        })),
        ctx.lp_supply > 0 ==> (spec_compute_d(
            ctx.vault_a_amount as u128,
            ctx.vault_b_amount as u128,
            ctx.pool.amplification as u128,
        ) matches Ok(d_before) && spec_compute_d(
            (ctx.vault_a_amount + amount_a) as u128,
            (ctx.vault_b_amount + amount_b) as u128,
            ctx.pool.amplification as u128,
        ) matches Ok(d_after) && d_before > 0 && d_after >= d_before && o.lp_minted == (if ctx.lp_supply
            * (d_after - d_before) / (d_before as int) > u64::MAX {
            u64::MAX as int
        } else {
            ctx.lp_supply * (d_after - d_before) / (d_before as int)
        })),
{
}

} // verus!
