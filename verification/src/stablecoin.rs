//! A permissioned stablecoin: an admin authorizes minters, each with a
//! lifetime allowance, and may pause all minting.
use vstd::prelude::*;

use crate::pubkey::Pubkey;

verus! {

/// The stablecoin's global configuration.
#[derive(Clone, Copy, Debug)]
pub struct Config {
    /// May manage minters and pause or unpause minting.
    pub admin: Pubkey,
    /// The stablecoin mint.
    pub mint: Pubkey,
    /// While `true`, minting is refused.
    pub paused: bool,
    /// Bump seed of the configuration's program-derived address.
    pub bump: u8,
    /// Bump seed of the mint's program-derived address.
    pub mint_bump: u8,
}

/// A minter's authorization.
#[derive(Clone, Copy, Debug)]
pub struct MinterConfig {
    /// The authorized minter.
    pub minter: Pubkey,
    /// The most this minter may mint over its lifetime.
    pub allowance: u64,
    /// What this minter has minted so far.
    pub amount_minted: u64,
    /// Set when the minter is first configured.
    pub is_initialized: bool,
    /// Bump seed of the minter configuration's program-derived address.
    pub bump: u8,
}

/// Reasons a stablecoin instruction is rejected.
#[derive(Debug, Clone, Copy, PartialEq, Eq, Structural)]
pub enum StablecoinError {
    /// You are not authorized to perform this action.
    Unauthorized,
    /// Minting is currently paused.
    Paused,
    /// Mint amount exceeds minter's remaining allowance.
    ExceedsAllowance,
    /// Account is not an authorized minter.
    NotMinter,
    /// Arithmetic overflow.
    Overflow,
}

/// What creating the stablecoin reads: the admin, the new mint and the bumps
/// of the configuration and mint addresses.
pub struct Initialize {
    pub admin: Pubkey,
    pub mint: Pubkey,
    pub config_bump: u8,
    pub mint_bump: u8,
}

/// What configuring a minter reads and writes: the signer, the
/// configuration, the minter, its (possibly fresh) configuration and the
/// bump of that configuration's address.
pub struct ConfigureMinter {
    pub admin: Pubkey,
    pub config: Config,
    pub minter: Pubkey,
    pub minter_config: MinterConfig,
    pub minter_config_bump: u8,
}

/// What removing a minter reads and writes: the signer, the configuration,
/// the minter and its configuration.
pub struct RemoveMinter {
    pub admin: Pubkey,
    pub config: Config,
    pub minter: Pubkey,
    pub minter_config: MinterConfig,
}

/// What minting reads and writes: the configuration and the minter's
/// configuration.
pub struct MintTokens {
    pub minter: Pubkey,
    pub config: Config,
    pub minter_config: MinterConfig,
}

/// What pausing reads and writes: the signer and the configuration.
pub struct Pause {
    pub admin: Pubkey,
    pub config: Config,
}

/// What unpausing reads and writes: the signer and the configuration.
pub struct Unpause {
    pub admin: Pubkey,
    pub config: Config,
}

/// Creates the configuration: the signer becomes admin, minting is open.
pub fn initialize(ctx: &Initialize) -> (config: Config)
    ensures
        config.admin@ == ctx.admin@,
        config.mint@ == ctx.mint@,
        !config.paused,
        config.bump == ctx.config_bump,
        config.mint_bump == ctx.mint_bump,
{
    Config {
        admin: ctx.admin,
        mint: ctx.mint,
        paused: false,
        bump: ctx.config_bump,
        mint_bump: ctx.mint_bump,
    }
}

/// Sets a minter's allowance; only the admin may. A minter configured for
/// the first time is recorded with nothing minted; for a known minter only
/// the allowance changes. A refused call changes nothing.
pub fn configure_minter(ctx: &mut ConfigureMinter, allowance: u64) -> (r: Result<(), StablecoinError>)
    ensures
        final(ctx).admin == old(ctx).admin,
        final(ctx).config == old(ctx).config,
        final(ctx).minter == old(ctx).minter,
        old(ctx).admin@ != old(ctx).config.admin@ ==> r == Err::<(), StablecoinError>(
            StablecoinError::Unauthorized,
        ) && final(ctx).minter_config == old(ctx).minter_config,
        old(ctx).admin@ == old(ctx).config.admin@ ==> {
            &&& r is Ok
            &&& final(ctx).minter_config.allowance == allowance
            &&& final(ctx).minter_config.is_initialized
            &&& old(ctx).minter_config.is_initialized ==> {
                &&& final(ctx).minter_config.minter == old(ctx).minter_config.minter
                &&& final(ctx).minter_config.amount_minted == old(ctx).minter_config.amount_minted
                &&& final(ctx).minter_config.bump == old(ctx).minter_config.bump
            }
            &&& !old(ctx).minter_config.is_initialized ==> {
                &&& final(ctx).minter_config.minter@ == old(ctx).minter@
                &&& final(ctx).minter_config.amount_minted == 0
                &&& final(ctx).minter_config.bump == old(ctx).minter_config_bump
            }
        },
{
    if !(ctx.admin == ctx.config.admin) {
        return Err(StablecoinError::Unauthorized);
    }
    if !ctx.minter_config.is_initialized {
        ctx.minter_config.minter = ctx.minter;
        ctx.minter_config.amount_minted = 0;
        ctx.minter_config.is_initialized = true;
        ctx.minter_config.bump = ctx.minter_config_bump;
    }
    ctx.minter_config.allowance = allowance;
    Ok(())
}

/// Whether a minter configuration is that of a closed account: all zero,
/// in particular not initialized.
pub open spec fn is_closed(minter_config: MinterConfig) -> bool {
    &&& minter_config.minter@ == seq![0u8; 32]
    &&& minter_config.allowance == 0
    &&& minter_config.amount_minted == 0
    &&& !minter_config.is_initialized
    &&& minter_config.bump == 0
}

/// Revokes a minter; only the admin may. On success the minter's
/// configuration account is closed (its rent going to the admin): what is
/// left at its address is an unconfigured, all-zero configuration, so the
/// minter can no longer mint until it is configured again. A refused call
/// changes nothing.
pub fn remove_minter(ctx: &mut RemoveMinter) -> (r: Result<(), StablecoinError>)
    ensures
        final(ctx).admin == old(ctx).admin,
        final(ctx).config == old(ctx).config,
        final(ctx).minter == old(ctx).minter,
        old(ctx).admin@ == old(ctx).config.admin@ ==> r is Ok && is_closed(final(ctx).minter_config),
        old(ctx).admin@ != old(ctx).config.admin@ ==> r == Err::<(), StablecoinError>(
            StablecoinError::Unauthorized,
        ) && final(ctx).minter_config == old(ctx).minter_config,
{
    if !(ctx.admin == ctx.config.admin) {
        return Err(StablecoinError::Unauthorized);
    }
    let closed = MinterConfig {
        minter: Pubkey::new_from_array([0u8; 32]),
        allowance: 0,
        amount_minted: 0,
        is_initialized: false,
        bump: 0,
    };
    proof {
        assert(closed.minter@ =~= seq![0u8; 32]);
    }
    ctx.minter_config = closed;
    Ok(())
}

/// The error, if any, with which a mint of `amount` is refused: the minter
/// must be configured, minting must not be paused, and the amount must fit in
/// what is left of the allowance.
pub open spec fn mint_error(config: Config, minter_config: MinterConfig, amount: u64) -> Option<
    StablecoinError,
> {
    if !minter_config.is_initialized {
        Some(StablecoinError::NotMinter)
    } else if config.paused {
        Some(StablecoinError::Paused)
    } else if minter_config.amount_minted > minter_config.allowance || amount
        > minter_config.allowance - minter_config.amount_minted {
        Some(StablecoinError::ExceedsAllowance)
    } else {
        None
    }
}

/// Mints `amount` new tokens on behalf of the minter, to be delivered to the
/// destination account, and records them against its allowance. A refused
/// mint changes nothing.
pub fn mint_tokens(ctx: &mut MintTokens, amount: u64) -> (r: Result<(), StablecoinError>)
    ensures
        final(ctx).minter == old(ctx).minter,
        final(ctx).config == old(ctx).config,
        final(ctx).minter_config.minter == old(ctx).minter_config.minter,
        final(ctx).minter_config.allowance == old(ctx).minter_config.allowance,
        final(ctx).minter_config.is_initialized == old(ctx).minter_config.is_initialized,
        final(ctx).minter_config.bump == old(ctx).minter_config.bump,
        match mint_error(old(ctx).config, old(ctx).minter_config, amount) {
            Some(e) => r == Err::<(), StablecoinError>(e) && final(ctx).minter_config.amount_minted
                == old(ctx).minter_config.amount_minted,
            None => r is Ok && final(ctx).minter_config.amount_minted == old(
                ctx,
            ).minter_config.amount_minted + amount,
        },
        r is Ok ==> final(ctx).minter_config.amount_minted <= final(ctx).minter_config.allowance,
{
    if !ctx.minter_config.is_initialized {
        return Err(StablecoinError::NotMinter);
    }
    if ctx.config.paused {
        return Err(StablecoinError::Paused);
    }
    let remaining = match ctx.minter_config.allowance.checked_sub(ctx.minter_config.amount_minted) {
        Some(v) => v,
        None => return Err(StablecoinError::ExceedsAllowance),
    };
    if !(amount <= remaining) {
        return Err(StablecoinError::ExceedsAllowance);
    }
    ctx.minter_config.amount_minted = match ctx.minter_config.amount_minted.checked_add(amount) {
        Some(v) => v,
        None => return Err(StablecoinError::Overflow),
    };
    Ok(())
}

/// Stops all minting; only the admin may.
pub fn pause(ctx: &mut Pause) -> (r: Result<(), StablecoinError>)
    ensures
        final(ctx).admin == old(ctx).admin,
        final(ctx).config.admin == old(ctx).config.admin,
        final(ctx).config.mint == old(ctx).config.mint,
        final(ctx).config.bump == old(ctx).config.bump,
        final(ctx).config.mint_bump == old(ctx).config.mint_bump,
        old(ctx).admin@ == old(ctx).config.admin@ ==> r is Ok && final(ctx).config.paused,
        old(ctx).admin@ != old(ctx).config.admin@ ==> r == Err::<(), StablecoinError>(
            StablecoinError::Unauthorized,
        ) && final(ctx).config.paused == old(ctx).config.paused,
{
    if !(ctx.admin == ctx.config.admin) {
        return Err(StablecoinError::Unauthorized);
    }
    ctx.config.paused = true;
    Ok(())
}

/// Resumes minting; only the admin may.
pub fn unpause(ctx: &mut Unpause) -> (r: Result<(), StablecoinError>)
    ensures
        final(ctx).admin == old(ctx).admin,
        final(ctx).config.admin == old(ctx).config.admin,
        final(ctx).config.mint == old(ctx).config.mint,
        final(ctx).config.bump == old(ctx).config.bump,
        final(ctx).config.mint_bump == old(ctx).config.mint_bump,
        old(ctx).admin@ == old(ctx).config.admin@ ==> r is Ok && !final(ctx).config.paused,
        old(ctx).admin@ != old(ctx).config.admin@ ==> r == Err::<(), StablecoinError>(
            StablecoinError::Unauthorized,
        ) && final(ctx).config.paused == old(ctx).config.paused,
{
    if !(ctx.admin == ctx.config.admin) {
        return Err(StablecoinError::Unauthorized);
    }
    ctx.config.paused = false;
    Ok(())
}

/// While minting is paused, no configured minter can mint any amount.
pub proof fn lemma_paused_blocks_minting(config: Config, minter_config: MinterConfig, amount: u64)
    requires
        config.paused,
        minter_config.is_initialized,
    ensures
        mint_error(config, minter_config, amount) == Some(StablecoinError::Paused),
{
}

/// A minter's total stays within its allowance: starting from a total within
/// the allowance, an accepted mint of `amount` leaves it within the allowance,
/// and minting exactly the rest of the allowance is accepted when unpaused.
pub proof fn lemma_allowance_is_a_ceiling(config: Config, minter_config: MinterConfig, amount: u64)
    requires
        minter_config.is_initialized,
        !config.paused,
        minter_config.amount_minted <= minter_config.allowance,
    ensures
        mint_error(config, minter_config, amount) is None <==> minter_config.amount_minted + amount
            <= minter_config.allowance,
        mint_error(config, minter_config, (minter_config.allowance - minter_config.amount_minted) as u64) is None,
{
}

/// A removed minter cannot mint: after a successful `remove_minter` every
/// mint of any amount by that minter is refused with `NotMinter`, until
/// `configure_minter` records it again, which starts it afresh with nothing
/// minted.
pub proof fn lemma_removed_minter_cannot_mint(config: Config, removed: MinterConfig, amount: u64)
    requires
        is_closed(removed),
    ensures
        mint_error(config, removed, amount) == Some(StablecoinError::NotMinter),
{
}

} // verus!
