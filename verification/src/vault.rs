//! The escrow vault: the custodial account that holds the rewards between
//! the time they enter the catalogue and the time they are paid out.
//!
//! The vault is a handle and the authority that alone may move funds out of
//! it. Deposits and releases are phrased as requests to the ledger; the
//! ledger's answer comes back through [`confirm`].

use vstd::prelude::*;
use crate::account::AccountHandle;
use crate::catalogue::RewardEntry;
use crate::error::EscrowError;
use crate::ledger::{TransferOutcome, TransferRequest};

verus! {

/// The custodial account of one escrow.
#[derive(Clone, Copy, Debug, PartialEq, Eq)]
pub struct EscrowVault {
    /// The account that holds the escrowed funds.
    pub account: AccountHandle,
    /// The only authority that may sign transfers out of the vault.
    pub authority: AccountHandle,
}

impl EscrowVault {
    /// The transfer that funds `entry`: its units, from the account it names
    /// as its source into the vault, signed by `funding_authority`.
    pub open spec fn deposit_request(
        self,
        entry: RewardEntry,
        funding_authority: AccountHandle,
    ) -> TransferRequest {
        TransferRequest {
            source: entry.source_reference,
            destination: self.account,
            authority: funding_authority,
            amount: entry.units(),
        }
    }

    /// The transfer that pays `entry` out: its units, from the vault to
    /// `destination`, signed by the vault's own authority.
    pub open spec fn release_request(
        self,
        entry: RewardEntry,
        destination: AccountHandle,
    ) -> TransferRequest {
        TransferRequest {
            source: self.account,
            destination,
            authority: self.authority,
            amount: entry.units(),
        }
    }

    /// What a release is answered with before the ledger is asked: the
    /// transfer to make, or `AuthorityMismatch` where the authority presented
    /// is not the vault's own.
    pub open spec fn release_decision(
        self,
        entry: RewardEntry,
        destination: AccountHandle,
        vault_authority: AccountHandle,
    ) -> Result<TransferRequest, EscrowError> {
        if vault_authority == self.authority {
            Ok(self.release_request(entry, destination))
        } else {
            Err(EscrowError::AuthorityMismatch)
        }
    }

    /// A vault at `account` under `authority`.
    pub fn new(account: AccountHandle, authority: AccountHandle) -> (vault: EscrowVault)
        ensures
            vault.account == account,
            vault.authority == authority,
    {
        EscrowVault { account, authority }
    }

    /// The transfer that brings the funds of `entry` into the vault.
    pub fn deposit(&self, entry: &RewardEntry, funding_authority: AccountHandle) -> (request:
        TransferRequest)
        ensures
            request == self.deposit_request(*entry, funding_authority),
    {
        TransferRequest {
            source: entry.source_reference,
            destination: self.account,
            authority: funding_authority,
            amount: entry.amount(),
        }
    }

    /// The transfer that pays `entry` out to `destination`, provided that
    /// `vault_authority` is the vault's own authority.
    pub fn release(
        &self,
        entry: &RewardEntry,
        destination: AccountHandle,
        vault_authority: AccountHandle,
    ) -> (result: Result<TransferRequest, EscrowError>)
        ensures
            result == self.release_decision(*entry, destination, vault_authority),
    {
        if vault_authority == self.authority {
            Ok(
                TransferRequest {
                    source: self.account,
                    destination,
                    authority: self.authority,
                    amount: entry.amount(),
                },
            )
        } else {
            Err(EscrowError::AuthorityMismatch)
        }
    }
}

/// How the ledger's answer to a deposit or a release reads as the result of
/// the escrow operation: a refusal is handed on unchanged inside
/// `TransferFailed`.
pub open spec fn confirmed(outcome: TransferOutcome) -> Result<(), EscrowError> {
    match outcome {
        Ok(_) => Ok(()),
        Err(cause) => Err(EscrowError::TransferFailed(cause)),
    }
}

/// Turns the ledger's answer into the result of the escrow operation.
pub fn confirm(outcome: TransferOutcome) -> (result: Result<(), EscrowError>)
    ensures
        result == confirmed(outcome),
{
    match outcome {
        Ok(_) => Ok(()),
        Err(cause) => Err(EscrowError::TransferFailed(cause)),
    }
}

} // verus!
