//! StableSwap invariant arithmetic.
//!
//! For a two-token pool the Curve invariant reads
//!
//! ```text
//!   4·A·(x + y) + D  =  4·A·D + D³/(4·x·y)
//! ```
//!
//! where `x`, `y` are the reserves, `A` the amplification coefficient and `D`
//! the invariant. `D` and the post-trade reserve `y` are found by
//! Newton-Raphson iteration in fixed-width `u128` arithmetic; every
//! intermediate product is checked, and an out-of-range intermediate or a zero
//! divisor aborts with [`StableSwapError::MathOverflow`].
//!
//! The specifications below describe that fixed-width evaluation exactly:
//! a step is `None` precisely when one of its intermediate quantities leaves
//! the `u128` range or one of its divisors is zero.
use vstd::prelude::*;

use crate::stableswap::constants::MAX_ITERATIONS;
use crate::stableswap::errors::StableSwapError;

verus! {

/// Distance between two unsigned values.
pub open spec fn spec_abs_diff(a: u128, b: u128) -> int {
    if a >= b {
        a - b
    } else {
        b - a
    }
}

/// One Newton step for `D`:
/// `D_P = (D·D / 2x)·D / 2y` and `D' = (ann·S + 2·D_P)·D / ((ann − 1)·D + 3·D_P)`,
/// every division rounding down.
pub open spec fn d_step(x: u128, y: u128, ann: u128, s: u128, d: u128) -> Option<u128> {
    let dd = d * d;
    let x2 = x * 2;
    let y2 = y * 2;
    let t = dd / x2 * d;
    let dp = t / y2;
    let sum = ann * s + dp * 2;
    let num = sum * d;
    let den = (ann - 1) * d + dp * 3;
    if dd > u128::MAX || x2 > u128::MAX || x2 == 0 || t > u128::MAX || y2 > u128::MAX || y2
        == 0 || ann * s > u128::MAX || dp * 2 > u128::MAX || sum > u128::MAX || num > u128::MAX
        || ann < 1 || (ann - 1) * d > u128::MAX || dp * 3 > u128::MAX || den > u128::MAX || den
        == 0 {
        None
    } else {
        Some((num / den) as u128)
    }
}

/// Newton iteration for `D` from the estimate `d`, with `fuel` steps left:
/// it stops as soon as a step moves the estimate by at most one.
pub open spec fn d_iterate(x: u128, y: u128, ann: u128, s: u128, d: u128, fuel: nat) -> Result<
    u128,
    StableSwapError,
>
    decreases fuel,
{
    if fuel == 0 {
        Err(StableSwapError::ConvergenceFailed)
    } else {
        match d_step(x, y, ann, s, d) {
            None => Err(StableSwapError::MathOverflow),
            Some(next) => if spec_abs_diff(next, d) <= 1 {
                Ok(next)
            } else {
                d_iterate(x, y, ann, s, next, (fuel - 1) as nat)
            },
        }
    }
}

/// The invariant `D` of a pool with reserves `x`, `y` and amplification `amp`,
/// starting Newton's method at `D = x + y` with `ann = 4·amp`.
pub open spec fn spec_compute_d(x: u128, y: u128, amp: u128) -> Result<u128, StableSwapError> {
    if x == 0 || y == 0 {
        Err(StableSwapError::EmptyPool)
    } else if x + y > u128::MAX || amp * 4 > u128::MAX {
        Err(StableSwapError::MathOverflow)
    } else {
        d_iterate(x, y, (amp * 4) as u128, (x + y) as u128, (x + y) as u128, MAX_ITERATIONS as nat)
    }
}

fn abs_diff(a: u128, b: u128) -> (r: u128)
    ensures
        r == spec_abs_diff(a, b),
{
    if a >= b {
        a - b
    } else {
        b - a
    }
}

fn d_step_exec(x: u128, y: u128, ann: u128, s: u128, d: u128) -> (r: Option<u128>)
    ensures
        r == d_step(x, y, ann, s, d),
{
    // D_P = D³ / (4·x·y), accumulated as ((D·D / 2x)·D) / 2y.
    let dd = d.checked_mul(d)?;
    let x2 = x.checked_mul(2)?;
    let t = dd.checked_div(x2)?.checked_mul(d)?;
    let y2 = y.checked_mul(2)?;
    let dp = t.checked_div(y2)?;
    // D' = (ann·S + 2·D_P)·D / ((ann − 1)·D + 3·D_P)
    let sum = ann.checked_mul(s)?.checked_add(dp.checked_mul(2)?)?;
    let num = sum.checked_mul(d)?;
    let den = ann.checked_sub(1)?.checked_mul(d)?.checked_add(dp.checked_mul(3)?)?;
    num.checked_div(den)
}

/// Computes the StableSwap invariant `D` from the two reserves and the
/// amplification coefficient, by Newton-Raphson from `D = x + y`.
///
/// Fails with `EmptyPool` when a reserve is zero, with `MathOverflow` when a
/// fixed-width intermediate overflows or a divisor is zero, and with
/// `ConvergenceFailed` when no step lands within one of its predecessor in
/// `MAX_ITERATIONS` steps.
pub fn compute_d(reserve_a: u128, reserve_b: u128, amp: u128) -> (r: Result<u128, StableSwapError>)
    ensures
        r == spec_compute_d(reserve_a, reserve_b, amp),
{
    if !(reserve_a > 0 && reserve_b > 0) {
        return Err(StableSwapError::EmptyPool);
    }
    let s = match reserve_a.checked_add(reserve_b) {
        Some(v) => v,
        None => return Err(StableSwapError::MathOverflow),
    };
    // A·n^n with n = 2.
    let ann = match amp.checked_mul(4) {
        Some(v) => v,
        None => return Err(StableSwapError::MathOverflow),
    };
    let mut d = s;
    let mut i: u8 = 0;
    while i < MAX_ITERATIONS
        invariant
            reserve_a > 0,
            reserve_b > 0,
            s == reserve_a + reserve_b,
            ann == amp * 4,
            i <= MAX_ITERATIONS,
            spec_compute_d(reserve_a, reserve_b, amp) == d_iterate(
                reserve_a,
                reserve_b,
                ann,
                s,
                d,
                (MAX_ITERATIONS - i) as nat,
            ),
        decreases MAX_ITERATIONS - i,
    {
        let d_prev = d;
        d = match d_step_exec(reserve_a, reserve_b, ann, s, d) {
            Some(v) => v,
            None => return Err(StableSwapError::MathOverflow),
        };
        if abs_diff(d, d_prev) <= 1 {
            return Ok(d);
        }
        i = i + 1;
    }
    Err(StableSwapError::ConvergenceFailed)
}

/// One Newton step for the post-trade reserve `y`: `y' = (y·y + c) / (2·y + b − D)`,
/// rounding down.
pub open spec fn y_step(b: u128, c: u128, d: u128, y: u128) -> Option<u128> {
    let num = y * y + c;
    let den = y * 2 + b - d;
    if y * y > u128::MAX || num > u128::MAX || y * 2 > u128::MAX || y * 2 + b > u128::MAX || den
        < 0 || den == 0 {
        None
    } else {
        Some((num / den) as u128)
    }
}

/// Newton iteration for `y` from the estimate `y`, with `fuel` steps left.
pub open spec fn y_iterate(b: u128, c: u128, d: u128, y: u128, fuel: nat) -> Result<
    u128,
    StableSwapError,
>
    decreases fuel,
{
    if fuel == 0 {
        Err(StableSwapError::ConvergenceFailed)
    } else {
        match y_step(b, c, d, y) {
            None => Err(StableSwapError::MathOverflow),
            Some(next) => if spec_abs_diff(next, y) <= 1 {
                Ok(next)
            } else {
                y_iterate(b, c, d, next, (fuel - 1) as nat)
            },
        }
    }
}

/// The reserve of the other token that keeps the invariant at `d` when one
/// reserve is `other`: Newton's method on `y² + c·y = b·y + c` from `y = D`, with
/// `ann = 4·amp`, `b = other + D/ann` and `c = D³ / (4·ann·other)`.
pub open spec fn spec_compute_y(other: u128, d: u128, amp: u128) -> Result<u128, StableSwapError> {
    let ann = amp * 4;
    let b = other + d as int / ann;
    let d3 = d * d * d;
    let div = other * 4 * ann;
    if other == 0 {
        Err(StableSwapError::EmptyPool)
    } else if ann > u128::MAX || ann == 0 || b > u128::MAX || d * d > u128::MAX || d3
        > u128::MAX || other * 4 > u128::MAX || div > u128::MAX || div == 0 {
        Err(StableSwapError::MathOverflow)
    } else {
        y_iterate(b as u128, (d3 / div) as u128, d, d, MAX_ITERATIONS as nat)
    }
}

fn y_step_exec(b: u128, c: u128, d: u128, y: u128) -> (r: Option<u128>)
    ensures
        r == y_step(b, c, d, y),
{
    let num = y.checked_mul(y)?.checked_add(c)?;
    let den = y.checked_mul(2)?.checked_add(b)?.checked_sub(d)?;
    num.checked_div(den)
}

/// Given the new reserve `reserve_other` of the token that comes in, computes
/// the reserve of the token that goes out such that the invariant stays `d`.
///
/// Fails with `EmptyPool` when `reserve_other` is zero, with `MathOverflow`
/// when a fixed-width intermediate overflows or a divisor is zero, and with
/// `ConvergenceFailed` when Newton's method does not settle in
/// `MAX_ITERATIONS` steps.
pub fn compute_y(reserve_other: u128, d: u128, amp: u128) -> (r: Result<u128, StableSwapError>)
    ensures
        r == spec_compute_y(reserve_other, d, amp),
{
    if !(reserve_other > 0) {
        return Err(StableSwapError::EmptyPool);
    }
    let ann = match amp.checked_mul(4) {
        Some(v) => v,
        None => return Err(StableSwapError::MathOverflow),
    };
    // b = reserve_other + D / ann
    let q = match d.checked_div(ann) {
        Some(v) => v,
        None => return Err(StableSwapError::MathOverflow),
    };
    let b = match reserve_other.checked_add(q) {
        Some(v) => v,
        None => return Err(StableSwapError::MathOverflow),
    };
    // c = D³ / (4·ann·reserve_other)
    let dd = match d.checked_mul(d) {
        Some(v) => v,
        None => return Err(StableSwapError::MathOverflow),
    };
    let d3 = match dd.checked_mul(d) {
        Some(v) => v,
        None => return Err(StableSwapError::MathOverflow),
    };
    let other4 = match reserve_other.checked_mul(4) {
        Some(v) => v,
        None => return Err(StableSwapError::MathOverflow),
    };
    let div = match other4.checked_mul(ann) {
        Some(v) => v,
        None => return Err(StableSwapError::MathOverflow),
    };
    let c = match d3.checked_div(div) {
        Some(v) => v,
        None => return Err(StableSwapError::MathOverflow),
    };
    let mut y = d;
    let mut i: u8 = 0;
    while i < MAX_ITERATIONS
        invariant
            i <= MAX_ITERATIONS,
            spec_compute_y(reserve_other, d, amp) == y_iterate(
                b,
                c,
                d,
                y,
                (MAX_ITERATIONS - i) as nat,
            ),
        decreases MAX_ITERATIONS - i,
    {
        let y_prev = y;
        y = match y_step_exec(b, c, d, y) {
            Some(v) => v,
            None => return Err(StableSwapError::MathOverflow),
        };
        if abs_diff(y, y_prev) <= 1 {
            return Ok(y);
        }
        i = i + 1;
    }
    Err(StableSwapError::ConvergenceFailed)
}

/// The outcome of a swap before any slippage check: the amount paid out
/// after the fee, and the fee, or the error that rejects the swap.
pub open spec fn spec_calculate_swap_output(
    reserve_in: u128,
    reserve_out: u128,
    amount_in: u128,
    amp: u128,
    fee_bps: u16,
) -> Result<(u128, u128), StableSwapError> {
    if amount_in == 0 {
        Err(StableSwapError::ZeroAmount)
    } else {
        match spec_compute_d(reserve_in, reserve_out, amp) {
            Err(e) => Err(e),
            Ok(d) => if reserve_in + amount_in > u128::MAX {
                Err(StableSwapError::MathOverflow)
            } else {
                match spec_compute_y((reserve_in + amount_in) as u128, d, amp) {
                    Err(e) => Err(e),
                    Ok(new_reserve_out) => {
                        let gross = reserve_out - new_reserve_out;
                        let fee = gross * fee_bps / 10_000;
                        if gross < 0 || gross * fee_bps > u128::MAX || fee > gross {
                            Err(StableSwapError::MathOverflow)
                        } else {
                            Ok(((gross - fee) as u128, fee as u128))
                        }
                    },
                }
            },
        }
    }
}

/// Computes what a swap of `amount_in` into a pool with reserves
/// `reserve_in` / `reserve_out` pays out after a fee of `fee_bps` basis
/// points: the result is `(amount_out, fee_amount)`.
///
/// The invariant `D` is computed on the reserves before the trade, the new
/// out-reserve from `reserve_in + amount_in` and `D`; the gross output is the
/// drop of the out-reserve, the fee is `gross·fee_bps / 10_000` rounded down.
pub fn calculate_swap_output(
    reserve_in: u128,
    reserve_out: u128,
    amount_in: u128,
    amp: u128,
    fee_bps: u16,
) -> (r: Result<(u128, u128), StableSwapError>)
    ensures
        r == spec_calculate_swap_output(reserve_in, reserve_out, amount_in, amp, fee_bps),
{
    if !(amount_in > 0) {
        return Err(StableSwapError::ZeroAmount);
    }
    let d = compute_d(reserve_in, reserve_out, amp)?;
    let new_reserve_in = match reserve_in.checked_add(amount_in) {
        Some(v) => v,
        None => return Err(StableSwapError::MathOverflow),
    };
    let new_reserve_out = compute_y(new_reserve_in, d, amp)?;
    let amount_out_before_fee = match reserve_out.checked_sub(new_reserve_out) {
        Some(v) => v,
        None => return Err(StableSwapError::MathOverflow),
    };
    let scaled = match amount_out_before_fee.checked_mul(fee_bps as u128) {
        Some(v) => v,
        None => return Err(StableSwapError::MathOverflow),
    };
    let fee = scaled / 10_000;
    let amount_out = match amount_out_before_fee.checked_sub(fee) {
        Some(v) => v,
        None => return Err(StableSwapError::MathOverflow),
    };
    Ok((amount_out, fee))
}

/// LP tokens minted for a deposit that moves the reserves from
/// `(a_before, b_before)` to `(a_after, b_after)` when `lp_supply` LP tokens
/// are outstanding, capped at `u64::MAX`.
pub open spec fn spec_calculate_lp_mint_amount(
    reserve_a_before: u128,
    reserve_b_before: u128,
    reserve_a_after: u128,
    reserve_b_after: u128,
    lp_supply: u128,
    amp: u128,
    minimum_liquidity: u64,
) -> Result<u64, StableSwapError> {
    if lp_supply == 0 {
        match spec_compute_d(reserve_a_after, reserve_b_after, amp) {
            Err(e) => Err(e),
            Ok(d) => if d <= minimum_liquidity {
                Err(StableSwapError::InsufficientInitialLiquidity)
            } else {
                Ok(cap_u64(d - minimum_liquidity))
            },
        }
    } else {
        match spec_compute_d(reserve_a_before, reserve_b_before, amp) {
            Err(e) => Err(e),
            Ok(d_before) => match spec_compute_d(reserve_a_after, reserve_b_after, amp) {
                Err(e) => Err(e),
                Ok(d_after) => if d_after < d_before {
                    Err(StableSwapError::InsufficientLiquidity)
                } else if lp_supply * (d_after - d_before) > u128::MAX || d_before == 0 {
                    Err(StableSwapError::MathOverflow)
                } else {
                    Ok(cap_u64(lp_supply * (d_after - d_before) / (d_before as int)))
                },
            },
        }
    }
}

/// `x` clamped to `u64::MAX`.
pub open spec fn cap_u64(x: int) -> u64 {
    if x > u64::MAX {
        u64::MAX
    } else {
        x as u64
    }
}

fn min_to_u64(x: u128) -> (r: u64)
    ensures
        r == cap_u64(x as int),
{
    if x > u64::MAX as u128 {
        u64::MAX
    } else {
        x as u64
    }
}

/// Computes how many LP tokens a deposit mints.
///
/// On the first deposit (`lp_supply == 0`) it mints `D − minimum_liquidity`
/// of the new reserves, keeping `minimum_liquidity` as dead shares, and fails
/// with `InsufficientInitialLiquidity` when `D` does not exceed it. Later it
/// mints `lp_supply·(D_after − D_before) / D_before`, rounding down, and fails
/// with `InsufficientLiquidity` when the deposit lowers `D`. Both amounts are
/// capped at `u64::MAX`.
pub fn calculate_lp_mint_amount(
    reserve_a_before: u128,
    reserve_b_before: u128,
    reserve_a_after: u128,
    reserve_b_after: u128,
    lp_supply: u128,
    amp: u128,
    minimum_liquidity: u64,
) -> (r: Result<u64, StableSwapError>)
    ensures
        r == spec_calculate_lp_mint_amount(
            reserve_a_before,
            reserve_b_before,
            reserve_a_after,
            reserve_b_after,
            lp_supply,
            amp,
            minimum_liquidity,
        ),
{
    if lp_supply == 0 {
        let d = compute_d(reserve_a_after, reserve_b_after, amp)?;
        if !(d > minimum_liquidity as u128) {
            return Err(StableSwapError::InsufficientInitialLiquidity);
        }
        return Ok(min_to_u64(d - minimum_liquidity as u128));
    }
    let d_before = compute_d(reserve_a_before, reserve_b_before, amp)?;
    let d_after = compute_d(reserve_a_after, reserve_b_after, amp)?;
    if !(d_after >= d_before) {
        return Err(StableSwapError::InsufficientLiquidity);
    }
    let d_diff = d_after - d_before;
    let scaled = match lp_supply.checked_mul(d_diff) {
        Some(v) => v,
        None => return Err(StableSwapError::MathOverflow),
    };
    let minted = match scaled.checked_div(d_before) {
        Some(v) => v,
        None => return Err(StableSwapError::MathOverflow),
    };
    Ok(min_to_u64(minted))
}

} // verus!
