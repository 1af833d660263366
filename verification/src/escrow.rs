//! A trustless token swap: a maker locks an amount of token A in a vault
//! controlled by the program and names the amount of token B wanted; any
//! taker can settle it atomically.
use vstd::prelude::*;

use crate::pubkey::Pubkey;

verus! {

/// The terms of an open offer.
#[derive(Clone, Copy, Debug)]
pub struct Offer {
    /// Who made the offer.
    pub maker: Pubkey,
    /// Mint of the token offered.
    pub mint_a: Pubkey,
    /// Mint of the token wanted.
    pub mint_b: Pubkey,
    /// Distinguishes the offers of one maker.
    pub offer_id: u64,
    /// Amount of token A locked in the vault.
    pub token_a_offered_amount: u64,
    /// Amount of token B wanted in exchange.
    pub token_b_wanted_amount: u64,
    /// Bump seed of the offer's program-derived address.
    pub bump: u8,
}

/// Reasons an escrow instruction is rejected.
#[derive(Debug, Clone, Copy, PartialEq, Eq, Structural)]
pub enum EscrowError {
    /// Maker account does not match Offer.maker.
    MakerMismatch,
    /// Mint account does not match Offer mints.
    MintMismatch,
    /// mint_a and mint_b must be different.
    SameMint,
}

/// What making an offer reads from its accounts: the maker, the two mints
/// and the bump of the new offer address.
pub struct MakeOffer {
    pub maker: Pubkey,
    pub mint_a: Pubkey,
    pub mint_b: Pubkey,
    pub offer_bump: u8,
}

/// The effect of an accepted offer: `deposit_a` of token A moves from the
/// maker to the offer's vault, and `offer` is recorded.
#[derive(Clone, Copy, Debug)]
pub struct MakeOfferOutcome {
    pub deposit_a: u64,
    pub offer: Offer,
}

/// What taking an offer reads from its accounts: the taker, the maker, the
/// two mints passed in and the recorded offer.
pub struct TakeOffer {
    pub taker: Pubkey,
    pub maker: Pubkey,
    pub mint_a: Pubkey,
    pub mint_b: Pubkey,
    pub offer: Offer,
}

/// The token movements of a settled offer: `pay_b` of token B from the taker
/// to the maker, `release_a` of token A from the vault to the taker; then the
/// vault and the offer are closed, their rent going to the maker.
#[derive(Clone, Copy, Debug, PartialEq, Eq, Structural)]
pub struct TakeOfferOutcome {
    pub pay_b: u64,
    pub release_a: u64,
}

/// The effect of making an offer: rejected with `SameMint` when both mints
/// are the same, else the deposit of token A and the recorded terms.
pub open spec fn spec_make_offer(
    ctx: MakeOffer,
    offer_id: u64,
    token_a_offered_amount: u64,
    token_b_wanted_amount: u64,
) -> Result<MakeOfferOutcome, EscrowError> {
    if ctx.mint_a@ == ctx.mint_b@ {
        Err(EscrowError::SameMint)
    } else {
        Ok(
            MakeOfferOutcome {
                deposit_a: token_a_offered_amount,
                offer: Offer {
                    maker: ctx.maker,
                    mint_a: ctx.mint_a,
                    mint_b: ctx.mint_b,
                    offer_id,
                    token_a_offered_amount,
                    token_b_wanted_amount,
                    bump: ctx.offer_bump,
                },
            },
        )
    }
}

/// Makes an offer of `token_a_offered_amount` of token A for
/// `token_b_wanted_amount` of token B; rejected with `SameMint` when both
/// mints are the same.
pub fn make_offer(
    ctx: &MakeOffer,
    offer_id: u64,
    token_a_offered_amount: u64,
    token_b_wanted_amount: u64,
) -> (r: Result<MakeOfferOutcome, EscrowError>)
    ensures
        r == spec_make_offer(*ctx, offer_id, token_a_offered_amount, token_b_wanted_amount),
{
    if ctx.mint_a == ctx.mint_b {
        return Err(EscrowError::SameMint);
    }
    Ok(
        MakeOfferOutcome {
            deposit_a: token_a_offered_amount,
            offer: Offer {
                maker: ctx.maker,
                mint_a: ctx.mint_a,
                mint_b: ctx.mint_b,
                offer_id,
                token_a_offered_amount,
                token_b_wanted_amount,
                bump: ctx.offer_bump,
            },
        },
    )
}

/// The error, if any, with which taking an offer is rejected: the maker and
/// the mints passed in must be those recorded in the offer.
pub open spec fn take_offer_error(ctx: TakeOffer) -> Option<EscrowError> {
    if ctx.offer.maker@ != ctx.maker@ {
        Some(EscrowError::MakerMismatch)
    } else if ctx.offer.mint_a@ != ctx.mint_a@ || ctx.offer.mint_b@ != ctx.mint_b@ {
        Some(EscrowError::MintMismatch)
    } else {
        None
    }
}

/// The effect of taking an offer: the recorded amounts, unless the maker or
/// a mint passed in differs from the recorded one.
pub open spec fn spec_take_offer(ctx: TakeOffer) -> Result<TakeOfferOutcome, EscrowError> {
    match take_offer_error(ctx) {
        Some(e) => Err(e),
        None => Ok(
            TakeOfferOutcome {
                pay_b: ctx.offer.token_b_wanted_amount,
                release_a: ctx.offer.token_a_offered_amount,
            },
        ),
    }
}

/// Settles an offer: the taker pays the wanted amount of token B to the
/// maker and receives the locked amount of token A.
pub fn take_offer(ctx: &TakeOffer) -> (r: Result<TakeOfferOutcome, EscrowError>)
    ensures
        r == spec_take_offer(*ctx),
{
    if !(ctx.offer.maker == ctx.maker) {
        return Err(EscrowError::MakerMismatch);
    }
    if !(ctx.offer.mint_a == ctx.mint_a) {
        return Err(EscrowError::MintMismatch);
    }
    if !(ctx.offer.mint_b == ctx.mint_b) {
        return Err(EscrowError::MintMismatch);
    }
    Ok(
        TakeOfferOutcome {
            pay_b: ctx.offer.token_b_wanted_amount,
            release_a: ctx.offer.token_a_offered_amount,
        },
    )
}

/// An offer is settled on exactly its terms: when the taker presents the
/// maker and mints the offer was made with, the taking succeeds, the maker is
/// paid exactly the wanted amount of token B and the taker receives exactly
/// the token A the maker deposited.
pub proof fn lemma_take_settles_made_offer(
    made: MakeOffer,
    offer_id: u64,
    token_a_offered_amount: u64,
    token_b_wanted_amount: u64,
    taken: TakeOffer,
)
    requires
        spec_make_offer(made, offer_id, token_a_offered_amount, token_b_wanted_amount) is Ok,
        taken.offer == spec_make_offer(
            made,
            offer_id,
            token_a_offered_amount,
            token_b_wanted_amount,
        )->Ok_0.offer,
        taken.maker@ == made.maker@,
        taken.mint_a@ == made.mint_a@,
        taken.mint_b@ == made.mint_b@,
    ensures
        spec_take_offer(taken) == Ok::<TakeOfferOutcome, EscrowError>(
            TakeOfferOutcome {
                pay_b: token_b_wanted_amount,
                release_a: spec_make_offer(
                    made,
                    offer_id,
                    token_a_offered_amount,
                    token_b_wanted_amount,
                )->Ok_0.deposit_a,
            },
        ),
{
}

} // verus!
