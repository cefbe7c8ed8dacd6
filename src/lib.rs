//! A non-custodial two-party escrow: a seller locks asset X in a vault that
//! only a key-less derived authority can move, and either a buyer settles by
//! paying the demanded amount of asset Y, or the seller cancels.
//!
//! The operations check every constraint on a snapshot of the accounts they
//! touch and return the exact list of ledger actions to perform; the ledger
//! itself is an outside service, modelled here at the level of specifications.
mod key;
pub mod authority;
pub mod state;
pub mod ledger;
pub mod instructions;
pub mod laws;

pub use instructions::{accept, cancel, initialize};
pub use key::Key;
pub use state::{AccountRef, Accept, Action, Authorization, Cancel, Escrow, EscrowError, Initialize, TokenAccount};
