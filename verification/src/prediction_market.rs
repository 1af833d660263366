//! A pari-mutuel yes/no prediction market: bets on each side go into a
//! pool, the creator resolves the market after its deadline, and each winner
//! takes back its bet plus its share of the losing pool in proportion to its
//! share of the winning pool.
use vstd::prelude::*;

use crate::pubkey::Pubkey;

verus! {

/// Longest accepted question, in bytes.
pub const MAX_QUESTION_LEN: usize = 200;

/// A market's state.
#[derive(Debug)]
pub struct Market {
    /// Who may resolve the market.
    pub creator: Pubkey,
    /// Identifier of the market among its creator's markets.
    pub market_id: u64,
    /// The yes/no question.
    pub question: String,
    /// Unix timestamp at which betting closes and resolution opens.
    pub resolution_time: i64,
    /// Lamports bet on YES.
    pub yes_pool: u64,
    /// Lamports bet on NO.
    pub no_pool: u64,
    /// Whether the market has been resolved.
    pub resolved: bool,
    /// The winning side once resolved (`Some(true)`: YES won).
    pub outcome: Option<bool>,
    /// Bump seed of the market's program-derived address.
    pub bump: u8,
}

/// A user's bets on one market.
#[derive(Clone, Copy, Debug)]
pub struct UserPosition {
    /// The market the position is in.
    pub market: Pubkey,
    /// The owner of the position.
    pub user: Pubkey,
    /// Lamports bet on YES.
    pub yes_amount: u64,
    /// Lamports bet on NO.
    pub no_amount: u64,
    /// Whether winnings have been claimed.
    pub claimed: bool,
    /// Bump seed of the position's program-derived address.
    pub bump: u8,
}

/// Reasons a market instruction is rejected.
#[derive(Debug, Clone, Copy, PartialEq, Eq, Structural)]
pub enum MarketError {
    /// Question too long, or an amount overflowed.
    Overflow,
    /// The resolution time is not in the future.
    ResolutionTimeInPast,
    /// A bet must be positive.
    InvalidBetAmount,
    /// Betting has closed.
    BettingClosed,
    /// Only the creator may resolve the market.
    Unauthorized,
    /// The market is already resolved.
    AlreadyResolved,
    /// The resolution time has not been reached.
    ResolutionTimeNotReached,
    /// The market is not resolved yet.
    NotResolved,
    /// Winnings were already claimed.
    AlreadyClaimed,
    /// The position has no bet on the winning side.
    NoWinnings,
}

impl Market {
    /// A market is resolved exactly when it has an outcome.
    pub open spec fn wf(&self) -> bool {
        self.resolved == self.outcome is Some
    }
}

/// What creating a market reads: the creator and the bump of the market
/// address.
pub struct CreateMarket {
    pub creator: Pubkey,
    pub market_bump: u8,
}

/// What a bet reads and writes: the bettor, the market's address and state,
/// and the bettor's (possibly fresh) position with the bump of its address.
pub struct PlaceBet {
    pub user: Pubkey,
    pub market_key: Pubkey,
    pub market: Market,
    pub user_position: UserPosition,
    pub user_position_bump: u8,
}

/// What resolving reads and writes: the signer and the market.
pub struct ResolveMarket {
    pub creator: Pubkey,
    pub market: Market,
}

/// What claiming reads and writes: the market and the claimant's position.
pub struct ClaimWinnings {
    pub market: Market,
    pub user_position: UserPosition,
}

/// The error, if any, with which creating a market at time `now` is
/// rejected: the question must fit in `MAX_QUESTION_LEN` bytes (UTF-8) and
/// the resolution time must lie in the future.
pub open spec fn create_market_error(question: Seq<char>, resolution_time: i64, now: i64) -> Option<
    MarketError,
> {
    if vstd::utf8::encode_utf8(question).len() as usize > MAX_QUESTION_LEN {
        Some(MarketError::Overflow)
    } else if resolution_time <= now {
        Some(MarketError::ResolutionTimeInPast)
    } else {
        None
    }
}

/// Creates a market asking `question`, betting closing at
/// `resolution_time`, at time `now`; both pools empty, unresolved.
pub fn create_market(
    ctx: &CreateMarket,
    market_id: u64,
    question: String,
    resolution_time: i64,
    now: i64,
) -> (r: Result<Market, MarketError>)
    ensures
        match create_market_error(question@, resolution_time, now) {
            Some(e) => r == Err::<Market, MarketError>(e),
            None => r matches Ok(m) && {
                &&& m.wf()
                &&& m.creator@ == ctx.creator@
                &&& m.market_id == market_id
                &&& m.question@ == question@
                &&& m.resolution_time == resolution_time
                &&& m.yes_pool == 0
                &&& m.no_pool == 0
                &&& !m.resolved
                &&& m.outcome is None
                &&& m.bump == ctx.market_bump
            },
        },
{
    if !(question.as_str().len() <= MAX_QUESTION_LEN) {
        return Err(MarketError::Overflow);
    }
    if !(resolution_time > now) {
        return Err(MarketError::ResolutionTimeInPast);
    }
    Ok(
        Market {
            creator: ctx.creator,
            market_id,
            question,
            resolution_time,
            yes_pool: 0,
            no_pool: 0,
            resolved: false,
            outcome: None,
            bump: ctx.market_bump,
        },
    )
}

/// The error, if any, with which a bet of `amount` at time `now` is
/// rejected: the amount must be positive, betting must still be open, and
/// neither the side's pool nor the position's side may overflow.
pub open spec fn place_bet_error(ctx: PlaceBet, amount: u64, bet_yes: bool, now: i64) -> Option<
    MarketError,
> {
    if amount == 0 {
        Some(MarketError::InvalidBetAmount)
    } else if now >= ctx.market.resolution_time {
        Some(MarketError::BettingClosed)
    } else if bet_yes && (ctx.market.yes_pool + amount > u64::MAX || ctx.user_position.yes_amount
        + amount > u64::MAX) {
        Some(MarketError::Overflow)
    } else if !bet_yes && (ctx.market.no_pool + amount > u64::MAX || ctx.user_position.no_amount
        + amount > u64::MAX) {
        Some(MarketError::Overflow)
    } else {
        None
    }
}

/// Bets `amount` lamports on YES (`bet_yes`) or NO at time `now`: the
/// lamports go from the user to the market, and are added to the side's pool
/// and to the user's position, which is tied to this market and user. A
/// rejected bet changes nothing.
pub fn place_bet(ctx: &mut PlaceBet, amount: u64, bet_yes: bool, now: i64) -> (r: Result<
    (),
    MarketError,
>)
    ensures
        final(ctx).user == old(ctx).user,
        final(ctx).market_key == old(ctx).market_key,
        final(ctx).user_position_bump == old(ctx).user_position_bump,
        final(ctx).market.creator == old(ctx).market.creator,
        final(ctx).market.market_id == old(ctx).market.market_id,
        final(ctx).market.question@ == old(ctx).market.question@,
        final(ctx).market.resolution_time == old(ctx).market.resolution_time,
        final(ctx).market.resolved == old(ctx).market.resolved,
        final(ctx).market.outcome == old(ctx).market.outcome,
        final(ctx).market.bump == old(ctx).market.bump,
        match place_bet_error(*old(ctx), amount, bet_yes, now) {
            Some(e) => {
                &&& r == Err::<(), MarketError>(e)
                &&& final(ctx).market.yes_pool == old(ctx).market.yes_pool
                &&& final(ctx).market.no_pool == old(ctx).market.no_pool
                &&& final(ctx).user_position == old(ctx).user_position
            },
            None => {
                &&& r is Ok
                &&& final(ctx).market.yes_pool == old(ctx).market.yes_pool + if bet_yes { amount } else { 0 }
                &&& final(ctx).market.no_pool == old(ctx).market.no_pool + if bet_yes { 0 } else { amount }
                &&& final(ctx).user_position.market == old(ctx).market_key
                &&& final(ctx).user_position.user == old(ctx).user
                &&& final(ctx).user_position.bump == old(ctx).user_position_bump
                &&& final(ctx).user_position.claimed == old(ctx).user_position.claimed
                &&& final(ctx).user_position.yes_amount == old(ctx).user_position.yes_amount + if bet_yes { amount } else { 0 }
                &&& final(ctx).user_position.no_amount == old(ctx).user_position.no_amount + if bet_yes { 0 } else { amount }
            },
        },
{
    if !(amount > 0) {
        return Err(MarketError::InvalidBetAmount);
    }
    if !(now < ctx.market.resolution_time) {
        return Err(MarketError::BettingClosed);
    }
    if bet_yes {
        let pool = match ctx.market.yes_pool.checked_add(amount) {
            Some(v) => v,
            None => return Err(MarketError::Overflow),
        };
        let side = match ctx.user_position.yes_amount.checked_add(amount) {
            Some(v) => v,
            None => return Err(MarketError::Overflow),
        };
        ctx.market.yes_pool = pool;
        ctx.user_position.yes_amount = side;
    } else {
        let pool = match ctx.market.no_pool.checked_add(amount) {
            Some(v) => v,
            None => return Err(MarketError::Overflow),
        };
        let side = match ctx.user_position.no_amount.checked_add(amount) {
            Some(v) => v,
            None => return Err(MarketError::Overflow),
        };
        ctx.market.no_pool = pool;
        ctx.user_position.no_amount = side;
    }
    ctx.user_position.market = ctx.market_key;
    ctx.user_position.user = ctx.user;
    ctx.user_position.bump = ctx.user_position_bump;
    Ok(())
}

/// The error, if any, with which resolving at time `now` is rejected: only
/// the creator may resolve, only once, and not before the resolution time.
pub open spec fn resolve_market_error(ctx: ResolveMarket, now: i64) -> Option<MarketError> {
    if ctx.creator@ != ctx.market.creator@ {
        Some(MarketError::Unauthorized)
    } else if ctx.market.resolved {
        Some(MarketError::AlreadyResolved)
    } else if now < ctx.market.resolution_time {
        Some(MarketError::ResolutionTimeNotReached)
    } else {
        None
    }
}

/// Resolves the market with `outcome` (`true`: YES won) at time `now`. A
/// refused resolution changes nothing.
pub fn resolve_market(ctx: &mut ResolveMarket, outcome: bool, now: i64) -> (r: Result<(), MarketError>)
    ensures
        old(ctx).market.wf() ==> final(ctx).market.wf(),
        final(ctx).creator == old(ctx).creator,
        final(ctx).market.creator == old(ctx).market.creator,
        final(ctx).market.market_id == old(ctx).market.market_id,
        final(ctx).market.question@ == old(ctx).market.question@,
        final(ctx).market.resolution_time == old(ctx).market.resolution_time,
        final(ctx).market.yes_pool == old(ctx).market.yes_pool,
        final(ctx).market.no_pool == old(ctx).market.no_pool,
        final(ctx).market.bump == old(ctx).market.bump,
        match resolve_market_error(*old(ctx), now) {
            Some(e) => r == Err::<(), MarketError>(e) && final(ctx).market.resolved == old(ctx).market.resolved
                && final(ctx).market.outcome == old(ctx).market.outcome,
            None => r is Ok && final(ctx).market.resolved && final(ctx).market.outcome == Some(outcome),
        },
{
    if !(ctx.creator == ctx.market.creator) {
        return Err(MarketError::Unauthorized);
    }
    if ctx.market.resolved {
        return Err(MarketError::AlreadyResolved);
    }
    if !(now >= ctx.market.resolution_time) {
        return Err(MarketError::ResolutionTimeNotReached);
    }
    ctx.market.resolved = true;
    ctx.market.outcome = Some(outcome);
    Ok(())
}

/// The claimant's bet on the winning side, the winning pool and the losing
/// pool of a resolved market.
pub open spec fn winning_sides(market: Market, position: UserPosition) -> (u64, u64, u64) {
    if market.outcome == Some(true) {
        (position.yes_amount, market.yes_pool, market.no_pool)
    } else {
        (position.no_amount, market.no_pool, market.yes_pool)
    }
}

/// A winner's share of the losing pool: `bet / winning_pool` of it, rounded
/// down, truncated to 64 bits.
pub open spec fn winnings(bet: u64, winning_pool: u64, losing_pool: u64) -> u64 {
    ((bet * losing_pool) / (winning_pool as int)) as u64
}

/// The outcome of a claim: the lamports paid out, or the error.
pub open spec fn spec_claim_winnings(market: Market, position: UserPosition) -> Result<u64, MarketError> {
    let (bet, winning_pool, losing_pool) = winning_sides(market, position);
    if !market.resolved {
        Err(MarketError::NotResolved)
    } else if position.claimed {
        Err(MarketError::AlreadyClaimed)
    } else if bet == 0 {
        Err(MarketError::NoWinnings)
    } else if winning_pool == 0 || bet + winnings(bet, winning_pool, losing_pool) > u64::MAX {
        Err(MarketError::Overflow)
    } else {
        Ok((bet + winnings(bet, winning_pool, losing_pool)) as u64)
    }
}

/// Claims the winnings of a position in a resolved market: its bet on the
/// winning side plus its share of the losing pool. The returned lamports move
/// from the market to the user, and the position is marked claimed; a refused
/// claim changes nothing.
pub fn claim_winnings(ctx: &mut ClaimWinnings) -> (r: Result<u64, MarketError>)
    requires
        old(ctx).market.resolved && !old(ctx).user_position.claimed ==> old(
            ctx,
        ).market.outcome is Some,
    ensures
        r == spec_claim_winnings(old(ctx).market, old(ctx).user_position),
        final(ctx).market.creator == old(ctx).market.creator,
        final(ctx).market.market_id == old(ctx).market.market_id,
        final(ctx).market.question@ == old(ctx).market.question@,
        final(ctx).market.resolution_time == old(ctx).market.resolution_time,
        final(ctx).market.yes_pool == old(ctx).market.yes_pool,
        final(ctx).market.no_pool == old(ctx).market.no_pool,
        final(ctx).market.resolved == old(ctx).market.resolved,
        final(ctx).market.outcome == old(ctx).market.outcome,
        final(ctx).market.bump == old(ctx).market.bump,
        r is Ok ==> final(ctx).user_position == (UserPosition { claimed: true, ..old(ctx).user_position }),
        r is Err ==> final(ctx).user_position == old(ctx).user_position,
{
    if !ctx.market.resolved {
        return Err(MarketError::NotResolved);
    }
    if ctx.user_position.claimed {
        return Err(MarketError::AlreadyClaimed);
    }
    let outcome = ctx.market.outcome.unwrap();
    let (user_winning_bet, total_winning_pool, total_losing_pool) = if outcome {
        (ctx.user_position.yes_amount, ctx.market.yes_pool, ctx.market.no_pool)
    } else {
        (ctx.user_position.no_amount, ctx.market.no_pool, ctx.market.yes_pool)
    };
    if !(user_winning_bet > 0) {
        return Err(MarketError::NoWinnings);
    }
    proof {
        assert(user_winning_bet * total_losing_pool <= u64::MAX * u64::MAX) by (nonlinear_arith);
    }
    let scaled = (user_winning_bet as u128) * (total_losing_pool as u128);
    let share = match scaled.checked_div(total_winning_pool as u128) {
        Some(v) => v,
        None => return Err(MarketError::Overflow),
    };
    let winnings = share as u64;
    let total_payout = match user_winning_bet.checked_add(winnings) {
        Some(v) => v,
        None => return Err(MarketError::Overflow),
    };
    ctx.user_position.claimed = true;
    Ok(total_payout)
}

/// Total of a list of bets.
pub open spec fn sum_bets(bets: Seq<u64>) -> int
    decreases bets.len(),
{
    if bets.len() == 0 {
        0
    } else {
        sum_bets(bets.drop_last()) + bets.last()
    }
}

/// Total paid out to winners whose winning bets are `bets`, each taking back
/// its bet plus its share of `losing_pool`.
pub open spec fn sum_payouts(bets: Seq<u64>, winning_pool: u64, losing_pool: u64) -> int
    decreases bets.len(),
{
    if bets.len() == 0 {
        0
    } else {
        sum_payouts(bets.drop_last(), winning_pool, losing_pool) + bets.last() + winnings(
            bets.last(),
            winning_pool,
            losing_pool,
        )
    }
}

proof fn lemma_floor_sum(x: int, y: int, w: int)
    requires
        x >= 0,
        y >= 0,
        w > 0,
    ensures
        x / w + y / w <= (x + y) / w,
{
    vstd::arithmetic::div_mod::lemma_fundamental_div_mod(x, w);
    vstd::arithmetic::div_mod::lemma_fundamental_div_mod(y, w);
    vstd::arithmetic::div_mod::lemma_fundamental_div_mod(x + y, w);
    assert(x / w + y / w <= (x + y) / w) by (nonlinear_arith)
        requires
            x == w * (x / w) + x % w,
            y == w * (y / w) + y % w,
            x + y == w * ((x + y) / w) + (x + y) % w,
            0 <= x % w < w,
            0 <= y % w < w,
            0 <= (x + y) % w < w,
            w > 0,
    ;
}

proof fn lemma_payouts_bounded_by_share(bets: Seq<u64>, winning_pool: u64, losing_pool: u64)
    requires
        winning_pool > 0,
        sum_bets(bets) <= winning_pool,
    ensures
        sum_bets(bets) >= 0,
        sum_payouts(bets, winning_pool, losing_pool) <= sum_bets(bets) + sum_bets(bets) * losing_pool
            / (winning_pool as int),
    decreases bets.len(),
{
    if bets.len() > 0 {
        let prefix = bets.drop_last();
        let b = bets.last();
        let w = winning_pool as int;
        let l = losing_pool as int;
        let p = sum_bets(prefix);
        assert(sum_bets(prefix) <= winning_pool) by {
            if sum_bets(prefix) > winning_pool {
                assert(sum_bets(bets) == p + b);
            }
        }
        lemma_payouts_bounded_by_share(prefix, winning_pool, losing_pool);
        assert(b <= w);
        assert(b * l / w <= l) by (nonlinear_arith)
            requires
                0 <= b <= w,
                l >= 0,
                w > 0,
        ;
        assert(b * l / w >= 0) by (nonlinear_arith)
            requires
                b >= 0,
                l >= 0,
                w > 0,
        ;
        assert(winnings(b, winning_pool, losing_pool) == b * l / w);
        assert(p * l >= 0) by (nonlinear_arith)
            requires
                p >= 0,
                l >= 0,
        ;
        assert(b * l >= 0) by (nonlinear_arith)
            requires
                b >= 0,
                l >= 0,
        ;
        lemma_floor_sum(p * l, b * l, w);
        assert((p + b) * l == p * l + b * l) by (nonlinear_arith);
    }
}

/// The market never owes more than it holds: when `bets` are all the bets
/// on the winning side (they add up to the winning pool), the payouts to
/// their owners add up to at most the two pools together, the remainder
/// being the rounding left in the market.
pub proof fn lemma_payouts_within_pools(bets: Seq<u64>, winning_pool: u64, losing_pool: u64)
    requires
        winning_pool > 0,
        sum_bets(bets) == winning_pool,
    ensures
        sum_payouts(bets, winning_pool, losing_pool) <= winning_pool + losing_pool,
{
    lemma_payouts_bounded_by_share(bets, winning_pool, losing_pool);
    let w = winning_pool as int;
    let l = losing_pool as int;
    assert(w * l / w == l) by (nonlinear_arith)
        requires
            w > 0,
    ;
}

/// Winnings are claimed once: after a successful claim the position is
/// marked claimed, and any later claim on it is refused with
/// `AlreadyClaimed`.
pub proof fn lemma_no_double_claim(market: Market, position: UserPosition, after: UserPosition)
    requires
        spec_claim_winnings(market, position) is Ok,
        after == (UserPosition { claimed: true, ..position }),
    ensures
        spec_claim_winnings(market, after) == Err::<u64, MarketError>(MarketError::AlreadyClaimed),
{
}

/// The market seen with the two sides exchanged: the pools swapped and the
/// outcome, if any, negated.
pub open spec fn mirror_market(market: Market) -> Market {
    Market {
        yes_pool: market.no_pool,
        no_pool: market.yes_pool,
        outcome: match market.outcome {
            Some(o) => Some(!o),
            None => None,
        },
        ..market
    }
}

/// The position seen with the two sides exchanged: its bets swapped.
pub open spec fn mirror_position(position: UserPosition) -> UserPosition {
    UserPosition { yes_amount: position.no_amount, no_amount: position.yes_amount, ..position }
}

/// A claim does not depend on which side is called YES: exchanging the two
/// pools, the two bets and the outcome of a resolved market leaves the claim's
/// result unchanged.
pub proof fn lemma_claim_symmetric(market: Market, position: UserPosition)
    requires
        market.outcome is Some,
    ensures
        spec_claim_winnings(mirror_market(market), mirror_position(position)) == spec_claim_winnings(
            market,
            position,
        ),
{
}

/// A resolved market pays each winning bet back with its share of the
/// losing pool: on a NO resolution an unclaimed position with a NO bet gets
/// `no_amount + ⌊no_amount · yes_pool / no_pool⌋`, on a YES resolution one
/// with a YES bet gets `yes_amount + ⌊yes_amount · no_pool / yes_pool⌋`,
/// whenever the pool it won with is non-empty and the sum fits in 64 bits.
/// In particular a position holding the whole winning pool takes both pools.
pub proof fn lemma_claim_pays_bet_and_share(market: Market, position: UserPosition)
    requires
        market.resolved,
        !position.claimed,
        market.outcome is Some,
    ensures
        market.outcome == Some(false) && position.no_amount > 0 && market.no_pool > 0
            && position.no_amount <= market.no_pool && position.no_amount + market.yes_pool
            <= u64::MAX ==> spec_claim_winnings(market, position) == Ok::<u64, MarketError>(
            (position.no_amount + position.no_amount * market.yes_pool / (market.no_pool as int)) as u64,
        ),
        market.outcome == Some(true) && position.yes_amount > 0 && market.yes_pool > 0
            && position.yes_amount <= market.yes_pool && position.yes_amount + market.no_pool
            <= u64::MAX ==> spec_claim_winnings(market, position) == Ok::<u64, MarketError>(
            (position.yes_amount + position.yes_amount * market.no_pool / (market.yes_pool as int)) as u64,
        ),
        market.outcome == Some(false) && market.no_pool > 0 && position.no_amount == market.no_pool
            && market.yes_pool + market.no_pool <= u64::MAX ==> spec_claim_winnings(market, position)
            == Ok::<u64, MarketError>((market.yes_pool + market.no_pool) as u64),
        market.outcome == Some(true) && market.yes_pool > 0 && position.yes_amount == market.yes_pool
            && market.yes_pool + market.no_pool <= u64::MAX ==> spec_claim_winnings(market, position)
            == Ok::<u64, MarketError>((market.yes_pool + market.no_pool) as u64),
{
    let (bet, w, l) = winning_sides(market, position);
    if bet > 0 && w > 0 && bet <= w {
        assert(bet * l / (w as int) <= l) by (nonlinear_arith)
            requires
                0 < bet <= w,
                l >= 0,
        ;
        assert(bet * l / (w as int) >= 0) by (nonlinear_arith)
            requires
                bet >= 0,
                l >= 0,
                w > 0,
        ;
        if bet == w {
            assert(bet * l / (w as int) == l) by (nonlinear_arith)
                requires
                    bet == w,
                    w > 0,
            ;
        }
    }
}

} // verus!
