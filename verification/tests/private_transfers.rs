use solana_bootcamp::private_transfers::{
    deposit, initialize, withdraw, Deposit, Initialize, PrivateTransfersError, Withdraw,
    EMPTY_ROOT, MAX_LEAVES, MIN_DEPOSIT_AMOUNT, ROOT_HISTORY_SIZE, TREE_DEPTH,
};
use solana_bootcamp::private_transfers_starter as starter;
use solana_bootcamp::pubkey::Pubkey;

const LAMPORTS_PER_SOL: u64 = 1_000_000_000;

fn key(n: u8) -> Pubkey {
    Pubkey::new_from_array([n; 32])
}

fn leaf(n: u8) -> [u8; 32] {
    let mut b = [0xabu8; 32];
    b[0] = n;
    b
}

fn root(n: u8) -> [u8; 32] {
    let mut b = [0xcdu8; 32];
    b[31] = n;
    b
}

#[test]
fn test_initialize_pool() {
    let pool = initialize(&Initialize { authority: key(1) });
    assert!(pool.authority == key(1));
    assert_eq!(pool.total_deposits, 0);
    assert_eq!(pool.next_leaf_index, 0);
    assert_eq!(pool.current_root_index, 0);
    assert_eq!(pool.roots[0], EMPTY_ROOT);
    assert!(pool.is_known_root(&EMPTY_ROOT));
}

#[test]
fn test_single_deposit() {
    let mut ctx = Deposit { pool: initialize(&Initialize { authority: key(1) }) };
    let deposit_amount = LAMPORTS_PER_SOL / 10;
    let ev = deposit(&mut ctx, leaf(0), root(0), deposit_amount, 1_700_000_000).unwrap();
    assert_eq!(ev.commitment, leaf(0));
    assert_eq!(ev.leaf_index, 0);
    assert_eq!(ev.new_root, root(0));
    assert_eq!(ev.timestamp, 1_700_000_000);
    assert_eq!(ctx.pool.next_leaf_index, 1);
    assert_eq!(ctx.pool.total_deposits, 1);
    assert_eq!(ctx.pool.current_root_index, 1);
    assert!(ctx.pool.is_known_root(&root(0)));
}

#[test]
fn test_multiple_deposits() {
    let mut ctx = Deposit { pool: initialize(&Initialize { authority: key(1) }) };
    for i in 0..3u8 {
        let deposit_amount = (50_000_000 + i as u64 * 10_000_000) as u64;
        let ev = deposit(&mut ctx, leaf(i), root(i), deposit_amount, 0).unwrap();
        assert_eq!(ev.leaf_index, i as u64);
    }
    assert_eq!(ctx.pool.next_leaf_index, 3);
    assert_eq!(ctx.pool.total_deposits, 3);
}

#[test]
fn test_reject_small_deposit() {
    let mut ctx = Deposit { pool: initialize(&Initialize { authority: key(1) }) };
    let below_min_amount = 100_000u64;
    assert_eq!(
        deposit(&mut ctx, leaf(0), root(0), below_min_amount, 0).err(),
        Some(PrivateTransfersError::DepositTooSmall)
    );
    assert_eq!(ctx.pool.next_leaf_index, 0);
    assert!(deposit(&mut ctx, leaf(0), root(0), MIN_DEPOSIT_AMOUNT, 0).is_ok());
}

#[test]
fn tree_constants() {
    assert_eq!(TREE_DEPTH, 10);
    assert_eq!(MAX_LEAVES, 1024);
    assert_eq!(ROOT_HISTORY_SIZE, 10);
}

#[test]
fn tree_full_after_max_leaves() {
    let mut ctx = Deposit { pool: initialize(&Initialize { authority: key(1) }) };
    for i in 0..MAX_LEAVES {
        assert!(deposit(&mut ctx, leaf(i as u8), root(i as u8), MIN_DEPOSIT_AMOUNT, 0).is_ok());
    }
    assert_eq!(
        deposit(&mut ctx, leaf(0), root(0), MIN_DEPOSIT_AMOUNT, 0).err(),
        Some(PrivateTransfersError::TreeFull)
    );
    assert_eq!(ctx.pool.total_deposits, 1024);
}

#[test]
fn ring_buffer_keeps_last_ten_roots() {
    let mut ctx = Deposit { pool: initialize(&Initialize { authority: key(1) }) };
    for i in 1..=10u8 {
        deposit(&mut ctx, leaf(i), root(i), MIN_DEPOSIT_AMOUNT, 0).unwrap();
    }
    for i in 1..=10u8 {
        assert!(ctx.pool.is_known_root(&root(i)));
    }
    // Ten deposits overwrote every slot, the empty root included.
    assert!(!ctx.pool.is_known_root(&EMPTY_ROOT));
    deposit(&mut ctx, leaf(11), root(11), MIN_DEPOSIT_AMOUNT, 0).unwrap();
    assert!(!ctx.pool.is_known_root(&root(1)));
    assert!(ctx.pool.is_known_root(&root(2)));
    assert!(ctx.pool.is_known_root(&root(11)));
}

#[test]
fn withdraw_checks_root_recipient_and_balance() {
    let mut ctx = Deposit { pool: initialize(&Initialize { authority: key(1) }) };
    deposit(&mut ctx, leaf(1), root(1), LAMPORTS_PER_SOL, 0).unwrap();
    let w = Withdraw { pool: ctx.pool, recipient: key(9), vault_lamports: LAMPORTS_PER_SOL };
    let ev = withdraw(&w, root(1), key(9), LAMPORTS_PER_SOL, 5).unwrap();
    assert!(ev.recipient == key(9));
    assert_eq!(ev.amount, LAMPORTS_PER_SOL);
    assert_eq!(ev.timestamp, 5);
    assert_eq!(withdraw(&w, root(2), key(9), 1, 5).err(), Some(PrivateTransfersError::InvalidRoot));
    assert_eq!(withdraw(&w, root(1), key(8), 1, 5).err(), Some(PrivateTransfersError::RecipientMismatch));
    assert_eq!(
        withdraw(&w, root(1), key(9), LAMPORTS_PER_SOL + 1, 5).err(),
        Some(PrivateTransfersError::InsufficientVaultBalance)
    );
}

#[test]
fn starter_pool_deposit_and_withdraw() {
    let pool = starter::initialize(&starter::Initialize { authority: key(1) });
    assert!(pool.authority == key(1));
    assert_eq!(pool.total_deposits, 0);
    let mut ctx = starter::Deposit { pool, depositor: key(2) };
    assert_eq!(
        starter::deposit(&mut ctx, 999_999, 0).err(),
        Some(starter::PrivateTransfersError::DepositTooSmall)
    );
    let ev = starter::deposit(&mut ctx, 1_000_000, 77).unwrap();
    assert!(ev.depositor == key(2));
    assert_eq!(ev.amount, 1_000_000);
    assert_eq!(ev.timestamp, 77);
    assert_eq!(ctx.pool.total_deposits, 1);
    let w = starter::Withdraw { recipient: key(3), vault_lamports: 1_000_000 };
    assert!(starter::withdraw(&w, key(3), 1_000_000, 0).is_ok());
    assert_eq!(
        starter::withdraw(&w, key(4), 1, 0).err(),
        Some(starter::PrivateTransfersError::RecipientMismatch)
    );
    assert_eq!(
        starter::withdraw(&w, key(3), 1_000_001, 0).err(),
        Some(starter::PrivateTransfersError::InsufficientVaultBalance)
    );
}

#[test]
fn fresh_pool_knows_only_the_empty_root() {
    let pool = initialize(&Initialize { authority: key(1) });
    for slot in pool.roots.iter() {
        assert_eq!(*slot, EMPTY_ROOT);
    }
    assert!(pool.is_known_root(&EMPTY_ROOT));
    assert!(!pool.is_known_root(&[0u8; 32]));
    let w = Withdraw { pool, recipient: key(9), vault_lamports: LAMPORTS_PER_SOL };
    assert_eq!(
        withdraw(&w, [0u8; 32], key(9), 1, 5).err(),
        Some(PrivateTransfersError::InvalidRoot)
    );
}
