use vstd::prelude::*;

use crate::pubkey::Pubkey;

verus! {

/// A two-token StableSwap liquidity pool, meant for pairs that trade near
/// 1:1 (USDC/USDT and the like).
#[derive(Clone, Copy, Debug)]
pub struct Pool {
    /// Creator / admin authority of the pool.
    pub admin: Pubkey,
    /// Mint of token A.
    pub token_mint_a: Pubkey,
    /// Vault holding the pool's token A reserve.
    pub vault_a: Pubkey,
    /// Mint of token B.
    pub token_mint_b: Pubkey,
    /// Vault holding the pool's token B reserve.
    pub vault_b: Pubkey,
    /// LP token mint: minted on deposit, burned on withdrawal.
    pub lp_mint: Pubkey,
    /// Amplification coefficient `A`; the higher, the flatter the curve near parity.
    pub amplification: u64,
    /// Swap fee in basis points (1 bps = 0.01%).
    pub fee_bps: u16,
    /// Bump seed of the pool's program-derived address.
    pub bump: u8,
}

impl Pool {
    /// Serialized size of the account: discriminator, six addresses,
    /// amplification, fee and bump.
    pub const LEN: usize = 8 + 32 + 32 + 32 + 32 + 32 + 32 + 8 + 2 + 1;
}

} // verus!
