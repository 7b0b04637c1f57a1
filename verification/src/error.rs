//! Errors of the escrow operations.

use vstd::prelude::*;
use crate::ledger::TransferError;

verus! {

/// Why an escrow operation did not take place. Every error is final for the
/// operation that raised it; nothing is retried.
#[derive(Clone, Copy, Debug, PartialEq, Eq, Structural)]
pub enum EscrowError {
    /// The catalogue already holds as many entries as it may.
    CapacityExceeded,
    /// The index names no entry of the catalogue.
    IndexOutOfRange,
    /// The ledger refused the deposit or the release.
    TransferFailed(TransferError),
    /// The authority presented for a release is not the vault's own.
    AuthorityMismatch,
    /// The recorded draw has been paid out already.
    AlreadySettled,
    /// No draw has been recorded yet.
    NothingToSettle,
    /// The clock could not be read.
    ClockUnavailable,
}

} // verus!
