use solana_bootcamp::pubkey::Pubkey;
use solana_bootcamp::stableswap::errors::StableSwapError;
use solana_bootcamp::stableswap::instructions::add_liquidity::{
    add_liquidity_handler, AddLiquidity, AddLiquidityOutcome,
};
use solana_bootcamp::stableswap::instructions::initialize_pool::{
    initialize_pool_handler, InitializePool,
};
use solana_bootcamp::stableswap::instructions::remove_liquidity::{
    remove_liquidity_handler, RemoveLiquidity, RemoveLiquidityOutcome,
};
use solana_bootcamp::stableswap::instructions::swap::{swap_handler, Swap, SwapOutcome};
use solana_bootcamp::stableswap::state::Pool;

fn key(n: u8) -> Pubkey {
    Pubkey::new_from_array([n; 32])
}

fn init_ctx() -> InitializePool {
    InitializePool {
        admin: key(1),
        token_mint_a: key(2),
        token_mint_a_decimals: 6,
        token_mint_b: key(3),
        token_mint_b_decimals: 6,
        lp_mint: key(4),
        vault_a: key(5),
        vault_b: key(6),
        pool_bump: 254,
    }
}

fn pool() -> Pool {
    initialize_pool_handler(&init_ctx(), 100, 4).unwrap()
}

#[test]
fn initialize_pool_records_parameters() {
    let p = pool();
    assert!(p.admin == key(1));
    assert!(p.token_mint_a == key(2));
    assert!(p.token_mint_b == key(3));
    assert!(p.lp_mint == key(4));
    assert!(p.vault_a == key(5));
    assert!(p.vault_b == key(6));
    assert_eq!(p.amplification, 100);
    assert_eq!(p.fee_bps, 4);
    assert_eq!(p.bump, 254);
    assert_eq!(Pool::LEN, 211);
}

#[test]
fn initialize_pool_errors() {
    let ctx = init_ctx();
    assert_eq!(initialize_pool_handler(&ctx, 0, 4).err(), Some(StableSwapError::InvalidAmplification));
    assert_eq!(
        initialize_pool_handler(&ctx, 1_000_001, 4).err(),
        Some(StableSwapError::InvalidAmplification)
    );
    assert!(initialize_pool_handler(&ctx, 1_000_000, 4).is_ok());
    assert_eq!(initialize_pool_handler(&ctx, 100, 10_001).err(), Some(StableSwapError::InvalidFee));
    let mut same = init_ctx();
    same.token_mint_b = key(2);
    assert_eq!(initialize_pool_handler(&same, 100, 4).err(), Some(StableSwapError::InvalidMint));
    let mut decimals = init_ctx();
    decimals.token_mint_b_decimals = 9;
    assert_eq!(
        initialize_pool_handler(&decimals, 100, 4).err(),
        Some(StableSwapError::InvalidMintDecimals)
    );
}

fn add_ctx(a: u64, b: u64, supply: u64) -> AddLiquidity {
    AddLiquidity {
        pool: pool(),
        vault_a: key(5),
        vault_a_amount: a,
        vault_b: key(6),
        vault_b_amount: b,
        lp_mint: key(4),
        lp_supply: supply,
    }
}

#[test]
fn add_liquidity_first_and_later_deposits() {
    let first = add_liquidity_handler(&add_ctx(0, 0, 0), 1_000_000_000, 1_000_000_000, 0).unwrap();
    assert_eq!(
        first,
        AddLiquidityOutcome {
            deposit_a: 1_000_000_000,
            deposit_b: 1_000_000_000,
            lp_minted: 1_999_999_000,
        }
    );
    let later = add_liquidity_handler(
        &add_ctx(1_000_000_000, 1_000_000_000, 1_999_999_000),
        1_000_000_000,
        1_000_000_000,
        0,
    )
    .unwrap();
    assert_eq!(later.lp_minted, 1_999_999_000);
}

#[test]
fn add_liquidity_errors() {
    assert_eq!(
        add_liquidity_handler(&add_ctx(0, 0, 0), 0, 0, 0).err(),
        Some(StableSwapError::ZeroAmount)
    );
    assert_eq!(
        add_liquidity_handler(&add_ctx(0, 0, 0), 1_000_000_000, 1_000_000_000, 2_000_000_000).err(),
        Some(StableSwapError::SlippageExceeded)
    );
    let mut wrong_vault = add_ctx(0, 0, 0);
    wrong_vault.vault_b = key(9);
    assert_eq!(
        add_liquidity_handler(&wrong_vault, 10, 10, 0).err(),
        Some(StableSwapError::InvalidVault)
    );
    let mut wrong_mint = add_ctx(0, 0, 0);
    wrong_mint.lp_mint = key(9);
    assert_eq!(
        add_liquidity_handler(&wrong_mint, 10, 10, 0).err(),
        Some(StableSwapError::InvalidMint)
    );
    // A one-sided first deposit leaves a reserve empty.
    assert_eq!(
        add_liquidity_handler(&add_ctx(0, 0, 0), 10, 0, 0).err(),
        Some(StableSwapError::EmptyPool)
    );
}

fn remove_ctx(a: u64, b: u64, supply: u64) -> RemoveLiquidity {
    RemoveLiquidity {
        pool: pool(),
        vault_a: key(5),
        vault_a_amount: a,
        vault_b: key(6),
        vault_b_amount: b,
        lp_mint: key(4),
        lp_supply: supply,
    }
}

#[test]
fn remove_liquidity_pays_pro_rata() {
    let ctx = remove_ctx(1_000_000, 2_000_000, 9_000);
    // adjusted supply 10_000: 4_500 LP redeem 45%.
    let out = remove_liquidity_handler(&ctx, 4_500, 0, 0).unwrap();
    assert_eq!(out, RemoveLiquidityOutcome { lp_burned: 4_500, amount_a: 450_000, amount_b: 900_000 });
    // Burning the whole on-chain supply still leaves the locked share.
    let all = remove_liquidity_handler(&ctx, 9_000, 0, 0).unwrap();
    assert_eq!(all.amount_a, 900_000);
    assert_eq!(all.amount_b, 1_800_000);
}

#[test]
fn remove_liquidity_errors() {
    let ctx = remove_ctx(1_000_000, 2_000_000, 9_000);
    assert_eq!(remove_liquidity_handler(&ctx, 0, 0, 0).err(), Some(StableSwapError::ZeroAmount));
    assert_eq!(
        remove_liquidity_handler(&ctx, 9_001, 0, 0).err(),
        Some(StableSwapError::InsufficientLiquidity)
    );
    assert_eq!(
        remove_liquidity_handler(&ctx, 4_500, 450_001, 0).err(),
        Some(StableSwapError::SlippageExceeded)
    );
    assert_eq!(
        remove_liquidity_handler(&ctx, 4_500, 0, 900_001).err(),
        Some(StableSwapError::SlippageExceeded)
    );
    let mut wrong = remove_ctx(1_000_000, 2_000_000, 9_000);
    wrong.vault_a = key(8);
    assert_eq!(remove_liquidity_handler(&wrong, 1, 0, 0).err(), Some(StableSwapError::InvalidVault));
}

fn swap_ctx(a: u64, b: u64) -> Swap {
    Swap { pool: pool(), vault_a: key(5), vault_a_amount: a, vault_b: key(6), vault_b_amount: b }
}

#[test]
fn swap_both_directions() {
    let ctx = swap_ctx(1_000_000_000_000, 1_000_000_000_000);
    let ab = swap_handler(&ctx, 1_000_000, 990_000, true).unwrap();
    assert_eq!(ab, SwapOutcome { a_to_b: true, amount_in: 1_000_000, amount_out: 999_600, fee: 400 });
    let ba = swap_handler(&ctx, 1_000_000, 0, false).unwrap();
    assert_eq!(ba.amount_out, 999_600);
    assert!(!ba.a_to_b);
}

#[test]
fn swap_errors() {
    let ctx = swap_ctx(1_000_000_000_000, 1_000_000_000_000);
    assert_eq!(swap_handler(&ctx, 0, 0, true).err(), Some(StableSwapError::ZeroAmount));
    assert_eq!(
        swap_handler(&ctx, 1_000_000, 999_601, true).err(),
        Some(StableSwapError::SlippageExceeded)
    );
    assert_eq!(
        swap_handler(&swap_ctx(0, 1_000), 10, 0, true).err(),
        Some(StableSwapError::EmptyPool)
    );
    let mut wrong = swap_ctx(1_000, 1_000);
    wrong.vault_b = key(7);
    assert_eq!(swap_handler(&wrong, 10, 0, true).err(), Some(StableSwapError::InvalidVault));
}

#[test]
fn swap_direction_does_not_matter() {
    for (x, y, amount_in, min_out) in [
        (5_000_000u64, 7_000_000u64, 250_000u64, 0u64),
        (1_000_000, 1_000_000, 1_000_000, 990_000),
        (300, 9_000_000, 50_000, 0),
        (1_000, 1_000, 10, 1_000),
    ] {
        let forward = swap_handler(&swap_ctx(x, y), amount_in, min_out, true);
        let backward = swap_handler(&swap_ctx(y, x), amount_in, min_out, false);
        match (forward, backward) {
            (Ok(f), Ok(b)) => {
                assert_eq!(f.amount_in, b.amount_in);
                assert_eq!(f.amount_out, b.amount_out);
                assert_eq!(f.fee, b.fee);
                assert!(f.a_to_b && !b.a_to_b);
            }
            (Err(f), Err(b)) => assert_eq!(f, b),
            _ => panic!("the two directions disagree"),
        }
    }
}
