//! The state-transition core of a token marketplace and governance ledger.
//!
//! Each action takes the accounts it touches as plain values, checks every
//! precondition, and only then writes: on an error the accounts are left as
//! they were. Value movements are returned to the caller, who has the ledger
//! perform them in the same atomic batch.
//!
//! - `data_token`: minting under a supply cap and a cooldown, and a two-phase
//!   handover of the mint authority.
//! - `settlement`: the engine that both marketplaces share: fee split,
//!   payment accounts, one rating per access record.
//! - `data_marketplace` and `ai_models`: datasets and paid model queries.
//! - `governance`: proposals, weighted votes, quorum and approval.

pub mod ai_models;
pub mod data_marketplace;
pub mod data_token;
pub mod errors;
pub mod governance;
pub mod identity;
pub mod settlement;
