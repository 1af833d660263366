# solana_bootcamp

Verified instruction logic of six small Solana programs, written in Verus:

| module | program |
|---|---|
| `voting` | a poll whose votes must come after its start and before its end |
| `escrow` | a maker/taker token swap through a program-held vault |
| `private_transfers_starter`, `private_transfers` | a SOL pool; the second keeps a ring buffer of recent Merkle roots |
| `stablecoin` | admin-managed minters with lifetime allowances and a pause switch |
| `stableswap` | a two-token Curve StableSwap pool (invariant `D`, swaps, LP minting and burning) |
| `prediction_market` | a pari-mutuel yes/no market |

Each instruction is a function from the values its accounts hold to the new
state and the transfers to make, or the error that aborts it; its contract
states which. Properties that span instructions are proof functions next to
them (e.g. `stableswap::laws`, `private_transfers::lemma_recent_root_is_known`,
`prediction_market::lemma_payouts_within_pools`).

`app/` holds the Anchor handlers: account validation, CPIs, clock reads,
events. `tests/` exercises the library on concrete values.
