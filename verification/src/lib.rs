//! A custodial spin-wheel reward escrow: a catalogue of weighted rewards, a
//! weighted draw over it, and the two-step protocol that first records a draw
//! and then pays it out of the vault.

pub mod account;
pub mod catalogue;
mod clock;
pub mod error;
pub mod escrow;
pub mod ledger;
pub mod program;
pub mod selector;
pub mod session;
pub mod vault;
