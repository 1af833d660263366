use solana_bootcamp::pubkey::Pubkey;
use solana_bootcamp::stablecoin::{
    configure_minter, initialize, mint_tokens, pause, remove_minter, unpause, Config,
    ConfigureMinter, Initialize, MintTokens, MinterConfig, Pause, RemoveMinter, StablecoinError,
    Unpause,
};

fn key(n: u8) -> Pubkey {
    Pubkey::new_from_array([n; 32])
}

fn fresh_minter_config() -> MinterConfig {
    MinterConfig {
        minter: Pubkey::new_from_array([0; 32]),
        allowance: 0,
        amount_minted: 0,
        is_initialized: false,
        bump: 0,
    }
}

fn initialize_program(admin: Pubkey) -> Config {
    initialize(&Initialize { admin, mint: key(100), config_bump: 255, mint_bump: 254 })
}

fn configure(config: Config, admin: Pubkey, minter: Pubkey, mc: MinterConfig, allowance: u64) -> (Result<(), StablecoinError>, MinterConfig) {
    let mut ctx = ConfigureMinter { admin, config, minter, minter_config: mc, minter_config_bump: 253 };
    let r = configure_minter(&mut ctx, allowance);
    (r, ctx.minter_config)
}

fn mint(config: Config, minter: Pubkey, mc: MinterConfig, amount: u64) -> (Result<(), StablecoinError>, MinterConfig) {
    let mut ctx = MintTokens { minter, config, minter_config: mc };
    let r = mint_tokens(&mut ctx, amount);
    (r, ctx.minter_config)
}

#[test]
fn test_initialize() {
    let config = initialize_program(key(1));
    assert!(config.admin == key(1));
    assert!(config.mint == key(100));
    assert!(!config.paused);
    assert_eq!(config.bump, 255);
    assert_eq!(config.mint_bump, 254);
}

#[test]
fn test_configure_minter() {
    let config = initialize_program(key(1));
    let allowance: u64 = 1_000_000_000;
    let (r, mc) = configure(config, key(1), key(2), fresh_minter_config(), allowance);
    assert_eq!(r, Ok(()));
    assert!(mc.is_initialized);
    assert!(mc.minter == key(2));
    assert_eq!(mc.allowance, allowance);
    assert_eq!(mc.amount_minted, 0);
    assert_eq!(mc.bump, 253);
}

#[test]
fn test_configure_minter_unauthorized() {
    let config = initialize_program(key(1));
    let allowance: u64 = 1_000_000_000;
    let (r, mc) = configure(config, key(9), key(2), fresh_minter_config(), allowance);
    assert_eq!(r, Err(StablecoinError::Unauthorized));
    assert!(!mc.is_initialized);
}

#[test]
fn test_update_minter_allowance() {
    let config = initialize_program(key(1));
    let (r1, mc) = configure(config, key(1), key(2), fresh_minter_config(), 1_000_000_000);
    assert_eq!(r1, Ok(()));
    let (_, mc) = mint(config, key(2), mc, 300);
    let (r2, mc) = configure(config, key(1), key(2), mc, 2_000_000_000);
    assert_eq!(r2, Ok(()));
    assert_eq!(mc.allowance, 2_000_000_000);
    assert_eq!(mc.amount_minted, 300);
}

fn remove(config: Config, admin: Pubkey, minter: Pubkey, mc: MinterConfig) -> (Result<(), StablecoinError>, MinterConfig) {
    let mut ctx = RemoveMinter { admin, config, minter, minter_config: mc };
    let r = remove_minter(&mut ctx);
    (r, ctx.minter_config)
}

#[test]
fn test_remove_minter() {
    let config = initialize_program(key(1));
    let (_, mc) = configure(config, key(1), key(2), fresh_minter_config(), 1_000_000_000);
    // The minter config exists.
    assert!(mc.is_initialized);
    let (r, closed) = remove(config, key(1), key(2), mc);
    assert_eq!(r, Ok(()));
    // The minter config was closed: nothing configured is left.
    assert!(!closed.is_initialized);
    assert!(closed.minter == Pubkey::new_from_array([0; 32]));
    assert_eq!(closed.allowance, 0);
    assert_eq!(closed.amount_minted, 0);
    assert_eq!(closed.bump, 0);
    let (r, _) = mint(config, key(2), closed, 1);
    assert_eq!(r, Err(StablecoinError::NotMinter));
}

#[test]
fn remove_minter_requires_admin() {
    let config = initialize_program(key(1));
    let (_, mc) = configure(config, key(1), key(2), fresh_minter_config(), 1_000_000_000);
    let (r, kept) = remove(config, key(3), key(2), mc);
    assert_eq!(r, Err(StablecoinError::Unauthorized));
    assert!(kept.is_initialized);
    assert_eq!(kept.allowance, 1_000_000_000);
}

#[test]
fn removed_minter_can_be_configured_again() {
    let config = initialize_program(key(1));
    let (_, mc) = configure(config, key(1), key(2), fresh_minter_config(), 1_000);
    let (_, mc) = mint(config, key(2), mc, 600);
    let (_, closed) = remove(config, key(1), key(2), mc);
    let (r, mc) = configure(config, key(1), key(2), closed, 1_000);
    assert_eq!(r, Ok(()));
    assert_eq!(mc.amount_minted, 0);
    let (r, mc) = mint(config, key(2), mc, 1_000);
    assert_eq!(r, Ok(()));
    assert_eq!(mc.amount_minted, 1_000);
}

#[test]
fn test_mint_tokens() {
    let config = initialize_program(key(1));
    let (_, mc) = configure(config, key(1), key(2), fresh_minter_config(), 1_000_000_000);
    let mint_amount: u64 = 100_000_000;
    let (r, mc) = mint(config, key(2), mc, mint_amount);
    assert_eq!(r, Ok(()));
    assert_eq!(mc.amount_minted, mint_amount);
}

#[test]
fn test_mint_exceeds_allowance() {
    let config = initialize_program(key(1));
    let (_, mc) = configure(config, key(1), key(2), fresh_minter_config(), 100_000_000);
    let mint_amount: u64 = 200_000_000;
    let (r, mc) = mint(config, key(2), mc, mint_amount);
    assert_eq!(r, Err(StablecoinError::ExceedsAllowance));
    assert_eq!(mc.amount_minted, 0);
}

#[test]
fn test_mint_unauthorized() {
    let config = initialize_program(key(1));
    let (r, _) = mint(config, key(9), fresh_minter_config(), 100_000_000);
    assert_eq!(r, Err(StablecoinError::NotMinter));
}

#[test]
fn test_pause() {
    let config = initialize_program(key(1));
    let mut ctx = Pause { admin: key(1), config };
    assert_eq!(pause(&mut ctx), Ok(()));
    assert!(ctx.config.paused);
}

#[test]
fn test_pause_unauthorized() {
    let config = initialize_program(key(1));
    let mut ctx = Pause { admin: key(5), config };
    assert_eq!(pause(&mut ctx), Err(StablecoinError::Unauthorized));
    assert!(!ctx.config.paused);
}

#[test]
fn test_mint_when_paused() {
    let config = initialize_program(key(1));
    let (_, mc) = configure(config, key(1), key(2), fresh_minter_config(), 1_000_000_000);
    let mut p = Pause { admin: key(1), config };
    pause(&mut p).unwrap();
    let (r, mc) = mint(p.config, key(2), mc, 100_000_000);
    assert_eq!(r, Err(StablecoinError::Paused));
    assert_eq!(mc.amount_minted, 0);
}

#[test]
fn test_unpause() {
    let config = initialize_program(key(1));
    let mut p = Pause { admin: key(1), config };
    pause(&mut p).unwrap();
    let mut u = Unpause { admin: key(1), config: p.config };
    assert_eq!(unpause(&mut u), Ok(()));
    assert!(!u.config.paused);
    let mut bad = Unpause { admin: key(2), config: p.config };
    assert_eq!(unpause(&mut bad), Err(StablecoinError::Unauthorized));
    assert!(bad.config.paused);
}

#[test]
fn test_mint_after_unpause() {
    let config = initialize_program(key(1));
    let (_, mc) = configure(config, key(1), key(2), fresh_minter_config(), 1_000_000_000);
    let mut p = Pause { admin: key(1), config };
    pause(&mut p).unwrap();
    let mut u = Unpause { admin: key(1), config: p.config };
    unpause(&mut u).unwrap();
    let mint_amount: u64 = 100_000_000;
    let (r, mc) = mint(u.config, key(2), mc, mint_amount);
    assert_eq!(r, Ok(()));
    assert_eq!(mc.amount_minted, mint_amount);
}

#[test]
fn test_multiple_minters() {
    let config = initialize_program(key(1));
    let (_, mc1) = configure(config, key(1), key(2), fresh_minter_config(), 500_000_000);
    let (_, mc2) = configure(config, key(1), key(3), fresh_minter_config(), 1_000_000_000);
    let (r1, mc1) = mint(config, key(2), mc1, 100_000_000);
    let (r2, mc2) = mint(config, key(3), mc2, 200_000_000);
    assert_eq!(r1, Ok(()));
    assert_eq!(r2, Ok(()));
    assert_eq!(mc1.amount_minted + mc2.amount_minted, 300_000_000);
}

#[test]
fn allowance_is_cumulative() {
    let config = initialize_program(key(1));
    let (_, mc) = configure(config, key(1), key(2), fresh_minter_config(), 100);
    let (r, mc) = mint(config, key(2), mc, 60);
    assert_eq!(r, Ok(()));
    let (r, mc) = mint(config, key(2), mc, 41);
    assert_eq!(r, Err(StablecoinError::ExceedsAllowance));
    let (r, mc) = mint(config, key(2), mc, 40);
    assert_eq!(r, Ok(()));
    assert_eq!(mc.amount_minted, 100);
    // Lowering the allowance below what was minted refuses any further mint.
    let (_, mc) = configure(config, key(1), key(2), mc, 50);
    let (r, _) = mint(config, key(2), mc, 0);
    assert_eq!(r, Err(StablecoinError::ExceedsAllowance));
}

#[test]
fn test_full_stablecoin_flow() {
    // 1. Initialize
    let config = initialize_program(key(1));
    // 2. Configure minter
    let (r, mc) = configure(config, key(1), key(2), fresh_minter_config(), 1_000_000_000);
    assert_eq!(r, Ok(()));
    // 3. Mint to user1
    let (r, mc) = mint(config, key(2), mc, 100_000_000);
    assert_eq!(r, Ok(()));
    // 4. Mint to user2
    let (r, mc) = mint(config, key(2), mc, 200_000_000);
    assert_eq!(r, Ok(()));
    assert_eq!(mc.amount_minted, 300_000_000);
    // 6. Pause and unpause
    let mut p = Pause { admin: key(1), config };
    assert_eq!(pause(&mut p), Ok(()));
    let mut u = Unpause { admin: key(1), config: p.config };
    assert_eq!(unpause(&mut u), Ok(()));
    // 7. Remove minter
    let (r, closed) = remove(u.config, key(1), key(2), mc);
    assert_eq!(r, Ok(()));
    // Verify minter was removed
    assert!(!closed.is_initialized);
    let (r, _) = mint(u.config, key(2), closed, 1);
    assert_eq!(r, Err(StablecoinError::NotMinter));
}
