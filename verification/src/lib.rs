//! Tokenomics accounting for a supply-capped fungible token whose transfers
//! automatically burn a fixed percentage of each amount moved, until a
//! cumulative burn ceiling is reached.
//!
//! The heart of the crate is the [`state::BurnState`] engine: a per-token
//! record of the hard supply cap, the cumulative minted amount, the cumulative
//! burned amount and the burn ceiling. Every mint and every transfer is
//! validated and recorded by the engine under checked arithmetic, and the
//! engine's invariants (minted amount within the cap, burned amount within the
//! ceiling) are proved to hold after every operation.
//!
//! [`store::TokenStore`] keys one `BurnState` per token identity and exposes
//! the three entry operations (initialize, mint, transfer). The ledger
//! primitives that actually move token units between accounts, and the
//! metadata registry, are external collaborators: the operations here decide
//! and record, and return to the caller exactly what the ledger must perform.

pub mod errors;
pub mod laws;
pub mod state;
pub mod store;
