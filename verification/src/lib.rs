//! Verified core logic of a set of Solana programs: a time-gated poll, a token
//! escrow, a shielded-pool deposit ledger, a permissioned stablecoin, a
//! two-token StableSwap pool and a pari-mutuel prediction market.
//!
//! Every function here is a pure state transition: it takes the values that
//! the on-chain instruction reads from its accounts and returns either the new
//! state (and the token movements to perform) or the error that aborts the
//! transaction, leaving all state untouched.
pub mod escrow;
pub mod prediction_market;
pub mod private_transfers;
pub mod private_transfers_starter;
pub mod pubkey;
pub mod stablecoin;
pub mod stableswap;
pub mod voting;
