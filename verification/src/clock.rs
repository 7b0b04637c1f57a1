//! The clock of the chain the escrow runs on, as a source of entropy.

use vstd::prelude::*;
use anchor_lang::solana_program::clock::Clock;
use anchor_lang::solana_program::sysvar::Sysvar;

verus! {

/// Reads the chain's clock with `Clock::get` and returns its Unix timestamp
/// in seconds, or `None` where the runtime offers no clock.
///
/// Nothing is claimed of the value: it is whatever the runtime reports at the
/// time of the call.
#[verifier::external_body]
pub(crate) fn unix_timestamp() -> (now: Option<i64>) {
    match Clock::get() {
        Ok(clock) => Some(clock.unix_timestamp),
        Err(_) => None,
    }
}

} // verus!
