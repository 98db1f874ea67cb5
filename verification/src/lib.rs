//! Creation of per-token escrow accounts: a deterministically addressed,
//! program-owned record that lets a non-fungible asset hold authority over
//! auxiliary resources.
//!
//! The crate has two halves used in sequence by different parties: an
//! instruction builder (client side, pure formatting) and the escrow
//! creation processor (runs inside the ledger runtime: validates the
//! supplied accounts, resolves the escrow authority, derives the escrow
//! address and produces the record bytes to persist).

pub mod error;
pub mod instruction;
pub mod pda;
pub mod processor;
pub mod spl;
pub mod state;
