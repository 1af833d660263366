use solana_bootcamp::prediction_market::{
    claim_winnings, create_market, place_bet, resolve_market, ClaimWinnings, CreateMarket, Market,
    MarketError, PlaceBet, ResolveMarket, UserPosition, MAX_QUESTION_LEN,
};
use solana_bootcamp::pubkey::Pubkey;

fn key(n: u8) -> Pubkey {
    Pubkey::new_from_array([n; 32])
}

const NOW: i64 = 1_700_000_000;

fn fresh_position() -> UserPosition {
    UserPosition {
        market: Pubkey::new_from_array([0; 32]),
        user: Pubkey::new_from_array([0; 32]),
        yes_amount: 0,
        no_amount: 0,
        claimed: false,
        bump: 0,
    }
}

fn new_market(resolution_time: i64) -> Market {
    create_market(&CreateMarket { creator: key(1), market_bump: 200 }, 1, "Test market".to_string(), resolution_time, NOW)
        .unwrap()
}

fn bet(market: Market, position: UserPosition, user: Pubkey, amount: u64, yes: bool, now: i64) -> (Result<(), MarketError>, Market, UserPosition) {
    let mut ctx = PlaceBet { user, market_key: key(50), market, user_position: position, user_position_bump: 199 };
    let r = place_bet(&mut ctx, amount, yes, now);
    (r, ctx.market, ctx.user_position)
}

fn resolve(market: Market, signer: Pubkey, outcome: bool, now: i64) -> (Result<(), MarketError>, Market) {
    let mut ctx = ResolveMarket { creator: signer, market };
    let r = resolve_market(&mut ctx, outcome, now);
    (r, ctx.market)
}

fn claim(market: Market, position: UserPosition) -> (Result<u64, MarketError>, Market, UserPosition) {
    let mut ctx = ClaimWinnings { market, user_position: position };
    let r = claim_winnings(&mut ctx);
    (r, ctx.market, ctx.user_position)
}

#[test]
fn test_create_market() {
    let m = create_market(
        &CreateMarket { creator: key(1), market_bump: 200 },
        1,
        "Will it rain tomorrow?".to_string(),
        NOW + 3600,
        NOW,
    )
    .unwrap();
    assert!(m.creator == key(1));
    assert_eq!(m.market_id, 1);
    assert_eq!(m.question, "Will it rain tomorrow?");
    assert_eq!(m.resolution_time, NOW + 3600);
    assert_eq!(m.yes_pool, 0);
    assert_eq!(m.no_pool, 0);
    assert!(!m.resolved);
    assert_eq!(m.outcome, None);
    assert_eq!(m.bump, 200);
}

#[test]
fn create_market_errors() {
    let ctx = CreateMarket { creator: key(1), market_bump: 200 };
    assert_eq!(create_market(&ctx, 1, "q".to_string(), NOW, NOW).err(), Some(MarketError::ResolutionTimeInPast));
    let long = "x".repeat(MAX_QUESTION_LEN + 1);
    assert_eq!(create_market(&ctx, 1, long, NOW + 1, NOW).err(), Some(MarketError::Overflow));
    assert!(create_market(&ctx, 1, "x".repeat(MAX_QUESTION_LEN), NOW + 1, NOW).is_ok());
    // The limit is in bytes: 67 three-byte characters are 201 bytes.
    assert_eq!(create_market(&ctx, 1, "界".repeat(67), NOW + 1, NOW).err(), Some(MarketError::Overflow));
}

#[test]
fn test_place_bet_yes() {
    let m = new_market(NOW + 3600);
    let (r, m, p) = bet(m, fresh_position(), key(2), 1_000_000_000, true, NOW);
    assert_eq!(r, Ok(()));
    assert_eq!(m.yes_pool, 1_000_000_000);
    assert_eq!(m.no_pool, 0);
    assert!(p.market == key(50));
    assert!(p.user == key(2));
    assert_eq!(p.yes_amount, 1_000_000_000);
    assert_eq!(p.bump, 199);
}

#[test]
fn test_cannot_bet_after_deadline() {
    let m = new_market(NOW + 1);
    let (r, m, p) = bet(m, fresh_position(), key(2), 1_000_000_000, true, NOW + 100);
    assert_eq!(r, Err(MarketError::BettingClosed));
    assert_eq!(m.yes_pool, 0);
    assert_eq!(p.yes_amount, 0);
}

#[test]
fn bet_must_be_positive() {
    let m = new_market(NOW + 1);
    let (r, _, _) = bet(m, fresh_position(), key(2), 0, true, NOW);
    assert_eq!(r, Err(MarketError::InvalidBetAmount));
}

#[test]
fn test_resolve_market() {
    let m = new_market(NOW + 1);
    let (r, m) = resolve(m, key(1), true, NOW + 100);
    assert_eq!(r, Ok(()));
    assert!(m.resolved);
    assert_eq!(m.outcome, Some(true));
}

#[test]
fn test_only_creator_can_resolve() {
    let m = new_market(NOW + 1);
    let (r, m) = resolve(m, key(9), true, NOW + 100);
    assert_eq!(r, Err(MarketError::Unauthorized));
    assert!(!m.resolved);
}

#[test]
fn resolve_timing_and_once() {
    let m = new_market(NOW + 10);
    let (r, m) = resolve(m, key(1), false, NOW + 9);
    assert_eq!(r, Err(MarketError::ResolutionTimeNotReached));
    let (r, m) = resolve(m, key(1), false, NOW + 10);
    assert_eq!(r, Ok(()));
    let (r, m) = resolve(m, key(1), true, NOW + 11);
    assert_eq!(r, Err(MarketError::AlreadyResolved));
    assert_eq!(m.outcome, Some(false));
}

#[test]
fn test_full_flow_with_payout() {
    let m = new_market(NOW + 1);
    let (_, m, p1) = bet(m, fresh_position(), key(2), 1_000_000_000, true, NOW);
    let (_, m, _p2) = bet(m, fresh_position(), key(3), 2_000_000_000, false, NOW);
    let (_, m) = resolve(m, key(1), true, NOW + 100);
    let (r, _, p1) = claim(m, p1);
    let payout = r.unwrap();
    // 1 SOL back plus the whole 2 SOL NO pool.
    assert!(payout > 2_500_000_000, "Winner should receive winnings");
    assert_eq!(payout, 3_000_000_000);
    assert!(p1.claimed);
}

#[test]
fn test_cannot_double_claim() {
    let m = new_market(NOW + 1);
    let (_, m, p) = bet(m, fresh_position(), key(2), 1_000_000_000, true, NOW);
    let (_, m) = resolve(m, key(1), true, NOW + 100);
    let (r1, m, p) = claim(m, p);
    assert_eq!(r1, Ok(1_000_000_000));
    let (r2, _, _) = claim(m, p);
    assert_eq!(r2, Err(MarketError::AlreadyClaimed));
}

#[test]
fn claim_errors_and_proportional_share() {
    let m = new_market(NOW + 1);
    let (_, m, winner) = bet(m, fresh_position(), key(2), 10, true, NOW);
    let (_, m, other) = bet(m, fresh_position(), key(3), 90, true, NOW);
    let (_, m, loser) = bet(m, fresh_position(), key(4), 50, false, NOW);
    let (r, m, _) = claim(m, winner);
    assert_eq!(r, Err(MarketError::NotResolved));
    let (_, m) = resolve(m, key(1), true, NOW + 1);
    // 10 of 100 on YES: 10 back plus 10% of the 50 lost = 15.
    let (r, m, _) = claim(m, winner);
    assert_eq!(r, Ok(15));
    let (r, m, _) = claim(m, other);
    assert_eq!(r, Ok(135));
    let (r, _, _) = claim(m, loser);
    assert_eq!(r, Err(MarketError::NoWinnings));
}
