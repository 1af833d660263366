//! A shielded SOL pool: each deposit inserts a commitment into an off-chain
//! Merkle tree of depth `TREE_DEPTH`, whose new root the depositor supplies;
//! the pool keeps the last `ROOT_HISTORY_SIZE` roots in a ring buffer, and a
//! withdrawal must name one of them.
use vstd::prelude::*;

use crate::pubkey::{bytes32_eq, Pubkey};
use vstd::arithmetic::div_mod::{lemma_fundamental_div_mod, lemma_mod_multiples_vanish};

verus! {

/// Smallest accepted deposit, in lamports (0.001 SOL).
pub const MIN_DEPOSIT_AMOUNT: u64 = 1_000_000;

/// Depth of the commitment tree.
pub const TREE_DEPTH: usize = 10;

/// Number of leaves of the commitment tree, `2^TREE_DEPTH`: the most
/// deposits the pool takes.
pub const MAX_LEAVES: u64 = 1024;

/// Number of recent roots a withdrawal may refer to.
pub const ROOT_HISTORY_SIZE: usize = 10;

/// Merkle root (Poseidon2) of the empty commitment tree.
pub const EMPTY_ROOT: [u8; 32] = [
    0x2a, 0x77, 0x5e, 0xa7, 0x61, 0xd2, 0x04, 0x35, 0xb3, 0x1f, 0xa2, 0xc3, 0x3f, 0xf0, 0x76,
    0x63, 0xe2, 0x45, 0x42, 0xff, 0xb9, 0xe7, 0xb2, 0x93, 0xdf, 0xce, 0x30, 0x42, 0xeb, 0x10,
    0x46, 0x86,
];

/// The pool's state: deposit counters and the ring buffer of recent roots.
#[derive(Clone, Copy, Debug)]
pub struct Pool {
    pub authority: Pubkey,
    pub total_deposits: u64,
    /// Leaf position the next commitment is inserted at.
    pub next_leaf_index: u64,
    /// Slot of the ring buffer that holds the current root.
    pub current_root_index: u64,
    /// The last `ROOT_HISTORY_SIZE` roots.
    pub roots: [[u8; 32]; 10],
}

/// Emitted on every deposit, so that clients can rebuild the tree.
#[derive(Clone, Copy, Debug)]
pub struct DepositEvent {
    pub commitment: [u8; 32],
    pub leaf_index: u64,
    pub new_root: [u8; 32],
    pub timestamp: i64,
}

/// Emitted on every withdrawal.
#[derive(Clone, Copy, Debug)]
pub struct WithdrawEvent {
    pub recipient: Pubkey,
    pub amount: u64,
    pub timestamp: i64,
}

/// Reasons a pool instruction is rejected.
#[derive(Debug, Clone, Copy, PartialEq, Eq, Structural)]
pub enum PrivateTransfersError {
    /// Deposit amount too small.
    DepositTooSmall,
    /// Recipient mismatch.
    RecipientMismatch,
    /// Insufficient vault balance.
    InsufficientVaultBalance,
    /// Merkle tree is full.
    TreeFull,
    /// Invalid root.
    InvalidRoot,
}

impl Pool {
    /// The state every pool is in: the current slot lies in the buffer, the
    /// tree has room for the leaves used so far, and every deposit took a leaf.
    pub open spec fn wf(&self) -> bool {
        &&& self.current_root_index < ROOT_HISTORY_SIZE
        &&& self.next_leaf_index <= MAX_LEAVES
        &&& self.total_deposits == self.next_leaf_index
    }

    /// Whether `root` is one of the roots in the buffer.
    pub open spec fn spec_is_known_root(&self, root: Seq<u8>) -> bool {
        exists|i: int| 0 <= i < ROOT_HISTORY_SIZE && #[trigger] self.roots@[i]@ == root
    }

    /// Whether `root` is one of the recent roots.
    pub fn is_known_root(&self, root: &[u8; 32]) -> (r: bool)
        ensures
            r == self.spec_is_known_root(root@),
    {
        let mut i: usize = 0;
        while i < ROOT_HISTORY_SIZE
            invariant
                i <= ROOT_HISTORY_SIZE,
                forall|j: int| 0 <= j < i ==> self.roots@[j]@ != root@,
            decreases ROOT_HISTORY_SIZE - i,
        {
            if bytes32_eq(&self.roots[i], root) {
                return true;
            }
            i = i + 1;
        }
        false
    }
}

/// What creating the pool reads: the authority that creates it.
pub struct Initialize {
    pub authority: Pubkey,
}

/// What a deposit reads and writes: the pool.
pub struct Deposit {
    pub pool: Pool,
}

/// What a withdrawal reads: the pool, the recipient account passed in and
/// the vault balance.
pub struct Withdraw {
    pub pool: Pool,
    pub recipient: Pubkey,
    pub vault_lamports: u64,
}

/// Creates the pool, owned by the signing authority: no deposits, and every
/// slot of the ring buffer holds the empty-tree root, so that a slot no
/// deposit has written yet only ever matches the root the pool starts from.
pub fn initialize(ctx: &Initialize) -> (pool: Pool)
    ensures
        pool.wf(),
        pool.authority@ == ctx.authority@,
        pool.total_deposits == 0,
        pool.next_leaf_index == 0,
        pool.current_root_index == 0,
        forall|i: int| 0 <= i < ROOT_HISTORY_SIZE ==> #[trigger] pool.roots@[i] == EMPTY_ROOT,
        forall|root: Seq<u8>| #[trigger] pool.spec_is_known_root(root) <==> root == EMPTY_ROOT@,
{
    let roots = [EMPTY_ROOT; 10];
    let pool = Pool {
        authority: ctx.authority,
        total_deposits: 0,
        next_leaf_index: 0,
        current_root_index: 0,
        roots,
    };
    proof {
        assert(pool.roots@[0] == EMPTY_ROOT);
        assert forall|root: Seq<u8>| #[trigger] pool.spec_is_known_root(root) implies root
            == EMPTY_ROOT@ by {
            let i = choose|i: int| 0 <= i < ROOT_HISTORY_SIZE && #[trigger] pool.roots@[i]@ == root;
            assert(pool.roots@[i] == EMPTY_ROOT);
        }
    }
    pool
}

/// The slot that follows `index` in the ring buffer.
pub open spec fn next_root_slot(index: int) -> int {
    (index + 1) % (ROOT_HISTORY_SIZE as int)
}

/// The error, if any, with which a deposit of `amount` is rejected.
pub open spec fn deposit_error(pool: Pool, amount: u64) -> Option<PrivateTransfersError> {
    if amount < MIN_DEPOSIT_AMOUNT {
        Some(PrivateTransfersError::DepositTooSmall)
    } else if pool.next_leaf_index >= MAX_LEAVES {
        Some(PrivateTransfersError::TreeFull)
    } else {
        None
    }
}

/// Deposits `amount` lamports with `commitment`, whose insertion into the
/// tree gives `new_root`, at `timestamp`.
///
/// Rejected with `DepositTooSmall` below `MIN_DEPOSIT_AMOUNT` and with
/// `TreeFull` once `MAX_LEAVES` deposits were made; a rejected deposit
/// changes nothing. An accepted one stores `new_root` in the next slot of the
/// ring buffer, overwriting the oldest root, takes the next leaf and returns
/// the event it emits.
pub fn deposit(
    ctx: &mut Deposit,
    commitment: [u8; 32],
    new_root: [u8; 32],
    amount: u64,
    timestamp: i64,
) -> (r: Result<DepositEvent, PrivateTransfersError>)
    requires
        deposit_error(old(ctx).pool, amount) is None ==> old(ctx).pool.current_root_index < u64::MAX
            && old(ctx).pool.total_deposits < u64::MAX,
    ensures
        old(ctx).pool.wf() ==> final(ctx).pool.wf(),
        match deposit_error(old(ctx).pool, amount) {
            Some(e) => r == Err::<DepositEvent, PrivateTransfersError>(e) && final(ctx).pool == old(ctx).pool,
            None => {
                &&& r matches Ok(ev)
                &&& ev.commitment == commitment
                &&& ev.leaf_index == old(ctx).pool.next_leaf_index
                &&& ev.new_root == new_root
                &&& ev.timestamp == timestamp
                &&& final(ctx).pool.authority == old(ctx).pool.authority
                &&& final(ctx).pool.total_deposits == old(ctx).pool.total_deposits + 1
                &&& final(ctx).pool.next_leaf_index == old(ctx).pool.next_leaf_index + 1
                &&& final(ctx).pool.current_root_index == next_root_slot(old(ctx).pool.current_root_index as int)
                &&& final(ctx).pool.roots@ == old(ctx).pool.roots@.update(
                    next_root_slot(old(ctx).pool.current_root_index as int),
                    new_root,
                )
            },
        },
{
    if !(amount >= MIN_DEPOSIT_AMOUNT) {
        return Err(PrivateTransfersError::DepositTooSmall);
    }
    if !(ctx.pool.next_leaf_index < MAX_LEAVES) {
        return Err(PrivateTransfersError::TreeFull);
    }
    let leaf_index = ctx.pool.next_leaf_index;
    let new_root_index = ((ctx.pool.current_root_index + 1) % ROOT_HISTORY_SIZE as u64) as usize;
    ctx.pool.roots[new_root_index] = new_root;
    ctx.pool.current_root_index = new_root_index as u64;
    let event = DepositEvent { commitment, leaf_index, new_root, timestamp };
    ctx.pool.total_deposits = ctx.pool.total_deposits + 1;
    ctx.pool.next_leaf_index = ctx.pool.next_leaf_index + 1;
    Ok(event)
}

/// The error, if any, with which a withdrawal against `root` of `amount` to
/// `recipient` is rejected.
pub open spec fn withdraw_error(ctx: Withdraw, root: [u8; 32], recipient: Pubkey, amount: u64) -> Option<
    PrivateTransfersError,
> {
    if !ctx.pool.spec_is_known_root(root@) {
        Some(PrivateTransfersError::InvalidRoot)
    } else if ctx.recipient@ != recipient@ {
        Some(PrivateTransfersError::RecipientMismatch)
    } else if ctx.vault_lamports < amount {
        Some(PrivateTransfersError::InsufficientVaultBalance)
    } else {
        None
    }
}

/// Pays `amount` lamports from the vault to `recipient` at `timestamp`,
/// against a proof for `root`: `root` must be one of the recent roots, the
/// recipient account passed in must be `recipient`, and the vault must hold
/// the amount. Returns the event the withdrawal emits.
pub fn withdraw(ctx: &Withdraw, root: [u8; 32], recipient: Pubkey, amount: u64, timestamp: i64) -> (r: Result<
    WithdrawEvent,
    PrivateTransfersError,
>)
    ensures
        match withdraw_error(*ctx, root, recipient, amount) {
            Some(e) => r == Err::<WithdrawEvent, PrivateTransfersError>(e),
            None => r == Ok::<WithdrawEvent, PrivateTransfersError>(
                WithdrawEvent { recipient: ctx.recipient, amount, timestamp },
            ),
        },
{
    if !ctx.pool.is_known_root(&root) {
        return Err(PrivateTransfersError::InvalidRoot);
    }
    if !(ctx.recipient == recipient) {
        return Err(PrivateTransfersError::RecipientMismatch);
    }
    if !(ctx.vault_lamports >= amount) {
        return Err(PrivateTransfersError::InsufficientVaultBalance);
    }
    Ok(WithdrawEvent { recipient: ctx.recipient, amount, timestamp })
}

/// The root buffer after successive accepted deposits of `new_roots`, in
/// order, starting from the buffer `roots` whose current root is in slot
/// `current`.
pub open spec fn roots_after_deposits(roots: Seq<[u8; 32]>, current: int, new_roots: Seq<[u8; 32]>) -> Seq<
    [u8; 32],
>
    decreases new_roots.len(),
{
    if new_roots.len() == 0 {
        roots
    } else {
        roots_after_deposits(roots, current, new_roots.drop_last()).update(
            (current + new_roots.len()) % (ROOT_HISTORY_SIZE as int),
            new_roots.last(),
        )
    }
}

/// An accepted deposit extends the history: a pool reached from `roots` and
/// slot `current` by depositing `history` is, after one more accepted deposit
/// of `new_root`, the pool reached by depositing `history` then `new_root`.
pub proof fn lemma_deposit_extends_history(
    roots: Seq<[u8; 32]>,
    current: int,
    history: Seq<[u8; 32]>,
    before: Pool,
    new_root: [u8; 32],
    after: Pool,
)
    requires
        0 <= current < ROOT_HISTORY_SIZE,
        before.roots@ == roots_after_deposits(roots, current, history),
        before.current_root_index == (current + history.len()) % (ROOT_HISTORY_SIZE as int),
        after.current_root_index == next_root_slot(before.current_root_index as int),
        after.roots@ == before.roots@.update(next_root_slot(before.current_root_index as int), new_root),
    ensures
        after.roots@ == roots_after_deposits(roots, current, history.push(new_root)),
        after.current_root_index == (current + history.push(new_root).len()) % (ROOT_HISTORY_SIZE as int),
{
    assert(history.push(new_root).drop_last() =~= history);
}

/// The ring buffer keeps the root of each of the last `ROOT_HISTORY_SIZE`
/// accepted deposits: whatever the buffer held before, after depositing
/// `new_roots` (at most `ROOT_HISTORY_SIZE` of them) each of them is in the
/// buffer, the `j`-th one in slot `current + j + 1` modulo the buffer size.
pub proof fn lemma_recent_roots_stay_known(roots: Seq<[u8; 32]>, current: int, new_roots: Seq<[u8; 32]>)
    requires
        roots.len() == ROOT_HISTORY_SIZE,
        0 <= current < ROOT_HISTORY_SIZE,
        new_roots.len() <= ROOT_HISTORY_SIZE,
    ensures
        roots_after_deposits(roots, current, new_roots).len() == ROOT_HISTORY_SIZE,
        forall|j: int|
            0 <= j < new_roots.len() ==> roots_after_deposits(roots, current, new_roots)[(current + j
                + 1) % (ROOT_HISTORY_SIZE as int)] == new_roots[j],
    decreases new_roots.len(),
{
    if new_roots.len() > 0 {
        let prefix = new_roots.drop_last();
        lemma_recent_roots_stay_known(roots, current, prefix);
        let n = new_roots.len() as int;
        assert forall|j: int| 0 <= j < n implies roots_after_deposits(roots, current, new_roots)[(
        current + j + 1) % (ROOT_HISTORY_SIZE as int)] == new_roots[j] by {
            if j < n - 1 {
                assert((current + j + 1) % (ROOT_HISTORY_SIZE as int) != (current + n) % (
                ROOT_HISTORY_SIZE as int));
                assert(prefix[j] == new_roots[j]);
            }
        }
    }
}

/// Every root among the last `ROOT_HISTORY_SIZE` accepted deposits is known
/// to the pool, so a withdrawal against it is not refused with `InvalidRoot`.
pub proof fn lemma_recent_root_is_known(
    roots: Seq<[u8; 32]>,
    current: int,
    new_roots: Seq<[u8; 32]>,
    pool: Pool,
    j: int,
)
    requires
        roots.len() == ROOT_HISTORY_SIZE,
        0 <= current < ROOT_HISTORY_SIZE,
        new_roots.len() <= ROOT_HISTORY_SIZE,
        pool.roots@ == roots_after_deposits(roots, current, new_roots),
        0 <= j < new_roots.len(),
    ensures
        pool.spec_is_known_root(new_roots[j]@),
{
    lemma_recent_roots_stay_known(roots, current, new_roots);
    let slot = (current + j + 1) % (ROOT_HISTORY_SIZE as int);
    assert(pool.roots@[slot]@ == new_roots[j]@);
}

/// The root left in `slot` after depositing `new_roots` from slot `current`:
/// the last of the deposited roots written there, the `j`-th one being
/// written to slot `current + j + 1` modulo the buffer size, or the root
/// that was there before if none was.
pub open spec fn slot_after_deposits(
    roots: Seq<[u8; 32]>,
    current: int,
    new_roots: Seq<[u8; 32]>,
    slot: int,
) -> [u8; 32] {
    let n = new_roots.len() as int;
    let k = (slot - current - 1) % (ROOT_HISTORY_SIZE as int);
    if k < n {
        new_roots[n - 1 - (n - 1 - k) % (ROOT_HISTORY_SIZE as int)]
    } else {
        roots[slot]
    }
}

/// Offsets in the ring buffer: the slot written by the `n`-th deposit from
/// `current` is the one whose offset from `current + 1` is `(n - 1) % 10`,
/// and any other slot's offset steps back by one with each deposit.
proof fn lemma_slot_offsets(slot: int, current: int, n: int)
    requires
        0 <= slot < ROOT_HISTORY_SIZE,
        0 <= current < ROOT_HISTORY_SIZE,
        n >= 1,
    ensures
        (slot == (current + n) % 10) <==> ((slot - current - 1) % 10 == (n - 1) % 10),
        slot == (current + n) % 10 ==> (n - 1 - (slot - current - 1) % 10) % 10 == 0,
        slot != (current + n) % 10 && (slot - current - 1) % 10 < n - 1 ==> (n - 1 - (slot - current
            - 1) % 10) % 10 == (n - 2 - (slot - current - 1) % 10) % 10 + 1,
{
    let k = (slot - current - 1) % 10;
    let q = (n - 1) / 10;
    let r = (n - 1) % 10;
    lemma_fundamental_div_mod(n - 1, 10);
    assert(n - 1 == 10 * q + r);
    lemma_mod_multiples_vanish(q, current + 1 + r, 10);
    lemma_mod_multiples_vanish(q, r - k, 10);
    lemma_mod_multiples_vanish(q, r - 1 - k, 10);
    assert(current + n == 10 * q + (current + 1 + r));
    assert(n - 1 - k == 10 * q + (r - k));
    assert(n - 2 - k == 10 * q + (r - 1 - k));
    assert(0 <= k < 10);
    assert(k == (slot - current - 1) + 10 || k == slot - current - 1);
}

/// The whole buffer after depositing `new_roots`: each slot holds what
/// `slot_after_deposits` says.
pub proof fn lemma_buffer_after_deposits(roots: Seq<[u8; 32]>, current: int, new_roots: Seq<[u8; 32]>)
    requires
        roots.len() == ROOT_HISTORY_SIZE,
        0 <= current < ROOT_HISTORY_SIZE,
    ensures
        roots_after_deposits(roots, current, new_roots).len() == ROOT_HISTORY_SIZE,
        forall|slot: int|
            0 <= slot < ROOT_HISTORY_SIZE ==> #[trigger] roots_after_deposits(roots, current, new_roots)[slot]
                == slot_after_deposits(roots, current, new_roots, slot),
    decreases new_roots.len(),
{
    if new_roots.len() > 0 {
        let prefix = new_roots.drop_last();
        lemma_buffer_after_deposits(roots, current, prefix);
        let n = new_roots.len() as int;
        assert forall|slot: int| 0 <= slot < ROOT_HISTORY_SIZE implies #[trigger] roots_after_deposits(
            roots,
            current,
            new_roots,
        )[slot] == slot_after_deposits(roots, current, new_roots, slot) by {
            let k = (slot - current - 1) % 10;
            let written = (current + n) % 10;
            assert(roots_after_deposits(roots, current, prefix)[slot] == slot_after_deposits(
                roots,
                current,
                prefix,
                slot,
            ));
            lemma_slot_offsets(slot, current, n);
            if slot != written && k < n - 1 {
                assert(prefix[n - 2 - (n - 2 - k) % 10] == new_roots[n - 2 - (n - 2 - k) % 10]);
            }
        }
    }
}

/// Roots expire after `ROOT_HISTORY_SIZE` newer deposits. Starting from the
/// pool `initialize` creates (the empty-tree root in every slot, current
/// slot 0), after the accepted deposits of `new_roots`, all different from
/// each other and from the empty-tree root: the `j`-th deposited root is
/// known exactly when fewer than `ROOT_HISTORY_SIZE` roots were deposited
/// after it, the empty-tree root is known exactly while fewer than
/// `ROOT_HISTORY_SIZE` deposits have been made, and no other root is known.
pub proof fn lemma_root_window(init: Pool, new_roots: Seq<[u8; 32]>, pool: Pool)
    requires
        init.current_root_index == 0,
        forall|i: int| 0 <= i < ROOT_HISTORY_SIZE ==> #[trigger] init.roots@[i] == EMPTY_ROOT,
        pool.roots@ == roots_after_deposits(init.roots@, 0, new_roots),
        forall|a: int, b: int|
            0 <= a < new_roots.len() && 0 <= b < new_roots.len() && a != b ==> #[trigger] new_roots[a]@
                != #[trigger] new_roots[b]@,
        forall|a: int|
            0 <= a < new_roots.len() ==> #[trigger] new_roots[a]@ != EMPTY_ROOT@,
    ensures
        forall|j: int|
            0 <= j < new_roots.len() ==> (pool.spec_is_known_root(#[trigger] new_roots[j]@) <==> j
                >= new_roots.len() - ROOT_HISTORY_SIZE),
        pool.spec_is_known_root(EMPTY_ROOT@) <==> new_roots.len() < ROOT_HISTORY_SIZE,
        forall|root: Seq<u8>|
            #[trigger] pool.spec_is_known_root(root) ==> root == EMPTY_ROOT@ || exists|j: int|
                0 <= j < new_roots.len() && new_roots[j]@ == root,
{
    let n = new_roots.len() as int;
    lemma_buffer_after_deposits(init.roots@, 0, new_roots);
    assert forall|j: int| 0 <= j < n implies (pool.spec_is_known_root(#[trigger] new_roots[j]@) <==> j
        >= n - 10) by {
        if j >= n - 10 {
            let slot = (j + 1) % 10;
            lemma_slot_of_recent_root(j, n);
            assert(pool.roots@[slot] == new_roots[j]);
        } else if pool.spec_is_known_root(new_roots[j]@) {
            let slot = choose|i: int| 0 <= i < ROOT_HISTORY_SIZE && #[trigger] pool.roots@[i]@ == new_roots[j]@;
            lemma_source_of_slot(slot, n);
            let k = (slot - 1) % 10;
            if k < n {
                let idx = n - 1 - (n - 1 - k) % 10;
                assert(pool.roots@[slot] == new_roots[idx]);
                assert(new_roots[idx]@ != new_roots[j]@);
            } else {
                assert(pool.roots@[slot] == init.roots@[slot]);
            }
        }
    }
    lemma_source_of_slot(0, n);
    if n < 10 {
        assert(pool.roots@[0] == init.roots@[0]);
    } else if pool.spec_is_known_root(EMPTY_ROOT@) {
        let slot = choose|i: int| 0 <= i < ROOT_HISTORY_SIZE && #[trigger] pool.roots@[i]@ == EMPTY_ROOT@;
        lemma_source_of_slot(slot, n);
        let k = (slot - 1) % 10;
        let idx = n - 1 - (n - 1 - k) % 10;
        assert(pool.roots@[slot] == new_roots[idx]);
        assert(new_roots[idx]@ != EMPTY_ROOT@);
    }
    assert forall|root: Seq<u8>| #[trigger] pool.spec_is_known_root(root) implies root == EMPTY_ROOT@
        || exists|j: int| 0 <= j < n && new_roots[j]@ == root by {
        let slot = choose|i: int| 0 <= i < ROOT_HISTORY_SIZE && #[trigger] pool.roots@[i]@ == root;
        lemma_source_of_slot(slot, n);
        let k = (slot - 1) % 10;
        if k < n {
            let idx = n - 1 - (n - 1 - k) % 10;
            assert(pool.roots@[slot] == new_roots[idx]);
        } else {
            assert(pool.roots@[slot] == init.roots@[slot]);
        }
    }
}

/// Starting from slot 0, the `j`-th of `n` deposits wrote slot `(j + 1) % 10`,
/// and when it is one of the last ten no later deposit wrote that slot again.
proof fn lemma_slot_of_recent_root(j: int, n: int)
    requires
        0 <= j < n,
        j >= n - ROOT_HISTORY_SIZE,
    ensures
        0 <= (j + 1) % 10 < 10,
        ((j + 1) % 10 - 0 - 1) % 10 < n,
        n - 1 - (n - 1 - ((j + 1) % 10 - 0 - 1) % 10) % 10 == j,
{
    let q = j / 10;
    let r = j % 10;
    lemma_fundamental_div_mod(j, 10);
    lemma_mod_multiples_vanish(q, r + 1, 10);
    assert(j + 1 == 10 * q + (r + 1));
    assert(((j + 1) % 10 - 1) % 10 == r);
    lemma_mod_multiples_vanish(q, n - 1 - j, 10);
    assert(n - 1 - r == 10 * q + (n - 1 - j));
    assert(0 <= n - 1 - j < 10);
}

/// Starting from slot 0, after `n` deposits a slot written at all was last
/// written by one of the last ten deposits; slot 0 is written by the tenth.
proof fn lemma_source_of_slot(slot: int, n: int)
    requires
        0 <= slot < ROOT_HISTORY_SIZE,
        n >= 0,
    ensures
        0 <= (slot - 1) % 10 < 10,
        slot == 0 ==> (slot - 0 - 1) % 10 == 9,
        n >= 10 ==> (slot - 0 - 1) % 10 < n,
        (slot - 0 - 1) % 10 < n ==> 0 <= n - 1 - (n - 1 - (slot - 0 - 1) % 10) % 10 < n,
        (slot - 0 - 1) % 10 < n ==> n - 1 - (n - 1 - (slot - 0 - 1) % 10) % 10 >= n - 10,
{
    let k = (slot - 1) % 10;
    assert(0 <= k < 10);
    if k < n {
        lemma_fundamental_div_mod(n - 1 - k, 10);
        assert((n - 1 - k) / 10 >= 0);
    }
}

/// A withdrawal is refused with `InvalidRoot` exactly when its root is in
/// none of the ten slots of the ring buffer, and goes through exactly when
/// the root is in one of them, the recipient is the account passed in and
/// the vault holds the amount.
pub proof fn lemma_withdraw_accepts_buffered_roots(
    ctx: Withdraw,
    root: [u8; 32],
    recipient: Pubkey,
    amount: u64,
)
    ensures
        withdraw_error(ctx, root, recipient, amount) == Some(PrivateTransfersError::InvalidRoot)
            <==> forall|i: int| 0 <= i < ROOT_HISTORY_SIZE ==> #[trigger] ctx.pool.roots@[i]@ != root@,
        withdraw_error(ctx, root, recipient, amount) is None <==> (exists|i: int|
            0 <= i < ROOT_HISTORY_SIZE && #[trigger] ctx.pool.roots@[i]@ == root@)
            && ctx.recipient@ == recipient@ && amount <= ctx.vault_lamports,
{
}

/// A proof made against the root of any of the last `ROOT_HISTORY_SIZE`
/// deposits can still be withdrawn: whatever the buffer held before, after
/// the deposits of `new_roots` (at most `ROOT_HISTORY_SIZE` of them) a
/// withdrawal against any of their roots, to the recipient account passed
/// in and within the vault's balance, is accepted.
pub proof fn lemma_withdraw_after_recent_deposit(
    roots: Seq<[u8; 32]>,
    current: int,
    new_roots: Seq<[u8; 32]>,
    ctx: Withdraw,
    j: int,
    amount: u64,
)
    requires
        roots.len() == ROOT_HISTORY_SIZE,
        0 <= current < ROOT_HISTORY_SIZE,
        new_roots.len() <= ROOT_HISTORY_SIZE,
        ctx.pool.roots@ == roots_after_deposits(roots, current, new_roots),
        0 <= j < new_roots.len(),
        amount <= ctx.vault_lamports,
    ensures
        withdraw_error(ctx, new_roots[j], ctx.recipient, amount) is None,
{
    lemma_recent_root_is_known(roots, current, new_roots, ctx.pool, j);
}

} // verus!
