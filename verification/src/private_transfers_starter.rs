//! A public SOL pool: deposits of at least a minimum amount go into a vault,
//! and the vault pays out to a named recipient.
use vstd::prelude::*;

use crate::pubkey::Pubkey;

verus! {

/// Smallest accepted deposit, in lamports (0.001 SOL).
pub const MIN_DEPOSIT_AMOUNT: u64 = 1_000_000;

/// Merkle root of the empty commitment tree.
pub const EMPTY_ROOT: [u8; 32] = [
    0x2a, 0x77, 0x5e, 0xa7, 0x61, 0xd2, 0x04, 0x35, 0xb3, 0x1f, 0xa2, 0xc3, 0x3f, 0xf0, 0x76,
    0x63, 0xe2, 0x45, 0x42, 0xff, 0xb9, 0xe7, 0xb2, 0x93, 0xdf, 0xce, 0x30, 0x42, 0xeb, 0x10,
    0x46, 0x86,
];

/// The pool's state.
#[derive(Clone, Copy, Debug)]
pub struct Pool {
    pub authority: Pubkey,
    pub total_deposits: u64,
}

/// Emitted on every deposit.
#[derive(Clone, Copy, Debug)]
pub struct DepositEvent {
    pub depositor: Pubkey,
    pub amount: u64,
    pub timestamp: i64,
}

/// Emitted on every withdrawal.
#[derive(Clone, Copy, Debug)]
pub struct WithdrawEvent {
    pub recipient: Pubkey,
    pub amount: u64,
    pub timestamp: i64,
}

/// Reasons a pool instruction is rejected.
#[derive(Debug, Clone, Copy, PartialEq, Eq, Structural)]
pub enum PrivateTransfersError {
    /// Deposit amount too small.
    DepositTooSmall,
    /// Recipient mismatch.
    RecipientMismatch,
    /// Insufficient vault balance.
    InsufficientVaultBalance,
}

/// What creating the pool reads: the authority that creates it.
pub struct Initialize {
    pub authority: Pubkey,
}

/// What a deposit reads and writes: the pool and the depositor.
pub struct Deposit {
    pub pool: Pool,
    pub depositor: Pubkey,
}

/// What a withdrawal reads: the recipient account passed in and the vault
/// balance.
pub struct Withdraw {
    pub recipient: Pubkey,
    pub vault_lamports: u64,
}

/// Creates the pool, owned by the signing authority, with no deposits.
pub fn initialize(ctx: &Initialize) -> (pool: Pool)
    ensures
        pool.authority@ == ctx.authority@,
        pool.total_deposits == 0,
{
    Pool { authority: ctx.authority, total_deposits: 0 }
}

/// Deposits `amount` lamports from the depositor into the vault at
/// `timestamp`; rejected with `DepositTooSmall` below `MIN_DEPOSIT_AMOUNT`.
/// A rejected deposit changes nothing; an accepted one counts one more
/// deposit and returns the event it emits.
pub fn deposit(ctx: &mut Deposit, amount: u64, timestamp: i64) -> (r: Result<
    DepositEvent,
    PrivateTransfersError,
>)
    requires
        amount >= MIN_DEPOSIT_AMOUNT ==> old(ctx).pool.total_deposits < u64::MAX,
    ensures
        final(ctx).depositor@ == old(ctx).depositor@,
        final(ctx).pool.authority@ == old(ctx).pool.authority@,
        amount < MIN_DEPOSIT_AMOUNT ==> r == Err::<DepositEvent, PrivateTransfersError>(
            PrivateTransfersError::DepositTooSmall,
        ),
        amount < MIN_DEPOSIT_AMOUNT ==> final(ctx).pool.total_deposits == old(ctx).pool.total_deposits,
        amount >= MIN_DEPOSIT_AMOUNT ==> final(ctx).pool.total_deposits == old(ctx).pool.total_deposits + 1,
        amount >= MIN_DEPOSIT_AMOUNT ==> (r matches Ok(ev) && ev.depositor@ == old(ctx).depositor@
            && ev.amount == amount && ev.timestamp == timestamp),
{
    if !(amount >= MIN_DEPOSIT_AMOUNT) {
        return Err(PrivateTransfersError::DepositTooSmall);
    }
    let event = DepositEvent { depositor: ctx.depositor, amount, timestamp };
    ctx.pool.total_deposits = ctx.pool.total_deposits + 1;
    Ok(event)
}

/// The error, if any, with which a withdrawal of `amount` to `recipient` is
/// rejected.
pub open spec fn withdraw_error(ctx: Withdraw, recipient: Pubkey, amount: u64) -> Option<
    PrivateTransfersError,
> {
    if ctx.recipient@ != recipient@ {
        Some(PrivateTransfersError::RecipientMismatch)
    } else if ctx.vault_lamports < amount {
        Some(PrivateTransfersError::InsufficientVaultBalance)
    } else {
        None
    }
}

/// Pays `amount` lamports from the vault to `recipient` at `timestamp`; the
/// recipient account passed in must be `recipient` and the vault must hold
/// the amount. Returns the event the withdrawal emits.
pub fn withdraw(ctx: &Withdraw, recipient: Pubkey, amount: u64, timestamp: i64) -> (r: Result<
    WithdrawEvent,
    PrivateTransfersError,
>)
    ensures
        match withdraw_error(*ctx, recipient, amount) {
            Some(e) => r == Err::<WithdrawEvent, PrivateTransfersError>(e),
            None => r is Ok && r->Ok_0.recipient@ == ctx.recipient@ && r->Ok_0.amount == amount
                && r->Ok_0.timestamp == timestamp,
        },
{
    if !(ctx.recipient == recipient) {
        return Err(PrivateTransfersError::RecipientMismatch);
    }
    if !(ctx.vault_lamports >= amount) {
        return Err(PrivateTransfersError::InsufficientVaultBalance);
    }
    Ok(WithdrawEvent { recipient: ctx.recipient, amount, timestamp })
}

} // verus!
