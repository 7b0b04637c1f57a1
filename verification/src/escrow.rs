//! One escrow: its catalogue and its spin session, changed together.
//!
//! Every operation that moves funds comes in two steps. The first step
//! (`*_request`) checks the operation against the current state and names the
//! transfer that the ledger has to make. The caller has the ledger make that
//! transfer, once, and hands the answer to the second step, which changes the
//! state only where the ledger has moved the funds. A refused transfer
//! therefore never leaves a trace in the escrow.

use vstd::prelude::*;
use crate::account::AccountHandle;
use crate::catalogue::{RewardCatalogue, RewardEntry};
use crate::error::EscrowError;
use crate::ledger::{
    balance_of, balances_after, funded, honours_balance, lemma_transfer_moves_exact_amount,
    Balances, TransferError, TransferOutcome, TransferRequest,
};
use crate::selector::{draw_value, select, selected};
use crate::session::{Settlement, SpinPhase, SpinState};
use crate::vault::EscrowVault;

verus! {

/// The state of one escrow: the reward catalogue and the session record.
#[derive(Debug)]
pub struct SpinItemList {
    /// The rewards on offer.
    pub catalogue: RewardCatalogue,
    /// The last draw and whether it has been paid.
    pub session: SpinState,
}

impl SpinItemList {
    /// Whether `other` holds the same catalogue and the same session record.
    pub open spec fn same_state(&self, other: SpinItemList) -> bool {
        &&& self.catalogue@ == other.catalogue@
        &&& self.catalogue.limit() == other.catalogue.limit()
        &&& self.session == other.session
    }

    /// What adding `entry` asks of the ledger: the deposit of its funds into
    /// `vault`, or `CapacityExceeded` where the catalogue is full.
    pub open spec fn addition(
        &self,
        entry: RewardEntry,
        vault: EscrowVault,
        funding_authority: AccountHandle,
    ) -> Result<TransferRequest, EscrowError> {
        if self.catalogue.full() {
            Err(EscrowError::CapacityExceeded)
        } else {
            Ok(vault.deposit_request(entry, funding_authority))
        }
    }

    /// What overwriting slot `index` with `entry` asks of the ledger: the
    /// deposit of its funds into `vault`, or `IndexOutOfRange` where the
    /// catalogue has no such slot.
    pub open spec fn replacement(
        &self,
        index: usize,
        entry: RewardEntry,
        vault: EscrowVault,
        funding_authority: AccountHandle,
    ) -> Result<TransferRequest, EscrowError> {
        if index >= self.catalogue@.len() {
            Err(EscrowError::IndexOutOfRange)
        } else {
            Ok(vault.deposit_request(entry, funding_authority))
        }
    }

    /// The entry that a settlement `by` pays out, or why it pays nothing.
    pub open spec fn settled_entry(&self, by: Settlement) -> Result<RewardEntry, EscrowError> {
        match self.session.target(by) {
            Err(error) => Err(error),
            Ok(index) => self.catalogue.entry_at(index),
        }
    }

    /// What a settlement `by` asks of the ledger: the release of the entry's
    /// funds from `vault` to `destination`, or the reason why nothing is
    /// released.
    pub open spec fn settlement(
        &self,
        by: Settlement,
        vault: EscrowVault,
        destination: AccountHandle,
        vault_authority: AccountHandle,
    ) -> Result<TransferRequest, EscrowError> {
        match self.settled_entry(by) {
            Err(error) => Err(error),
            Ok(entry) => vault.release_decision(entry, destination, vault_authority),
        }
    }

    /// What adding an entry returns, given the ledger's answer to the
    /// deposit: the index of the new entry, `CapacityExceeded` where the
    /// catalogue is full, `TransferFailed` where the ledger refused.
    pub open spec fn add_result(&self, deposit: TransferOutcome) -> Result<usize, EscrowError> {
        if self.catalogue.full() {
            Err(EscrowError::CapacityExceeded)
        } else {
            match deposit {
                Ok(_) => Ok(self.catalogue@.len() as usize),
                Err(cause) => Err(EscrowError::TransferFailed(cause)),
            }
        }
    }

    /// What overwriting slot `index` returns, given the ledger's answer to
    /// the deposit: the entry that stood there, `IndexOutOfRange` where the
    /// catalogue has no such slot, `TransferFailed` where the ledger refused.
    pub open spec fn update_result(&self, index: usize, deposit: TransferOutcome) -> Result<
        RewardEntry,
        EscrowError,
    > {
        if index >= self.catalogue@.len() {
            Err(EscrowError::IndexOutOfRange)
        } else {
            match deposit {
                Ok(_) => Ok(self.catalogue@[index as int]),
                Err(cause) => Err(EscrowError::TransferFailed(cause)),
            }
        }
    }

    /// What a settlement `by` returns, given the ledger's answer to the
    /// release: the entry paid, the reason why nothing was asked of the
    /// ledger, or `TransferFailed` where the ledger refused.
    pub open spec fn settle_result(
        &self,
        by: Settlement,
        vault: EscrowVault,
        destination: AccountHandle,
        vault_authority: AccountHandle,
        release: TransferOutcome,
    ) -> Result<RewardEntry, EscrowError> {
        match self.settlement(by, vault, destination, vault_authority) {
            Err(error) => Err(error),
            Ok(_) => match release {
                Ok(_) => self.settled_entry(by),
                Err(cause) => Err(EscrowError::TransferFailed(cause)),
            },
        }
    }

    /// An escrow with an empty catalogue, bounded by `capacity` where one is
    /// given, and an idle session.
    pub fn new(capacity: Option<usize>, nonce: u8) -> (escrow: SpinItemList)
        ensures
            escrow.catalogue@ == Seq::<RewardEntry>::empty(),
            escrow.catalogue.limit() == capacity,
            escrow.catalogue.within_limit(),
            escrow.session == SpinState::new_spec(nonce),
    {
        SpinItemList { catalogue: RewardCatalogue::new(capacity), session: SpinState::new(nonce) }
    }

    /// First step of adding `entry`: the deposit that the ledger has to make.
    pub fn add_request(
        &self,
        entry: &RewardEntry,
        vault: &EscrowVault,
        funding_authority: AccountHandle,
    ) -> (result: Result<TransferRequest, EscrowError>)
        ensures
            result == self.addition(*entry, *vault, funding_authority),
    {
        if self.catalogue.is_full() {
            Err(EscrowError::CapacityExceeded)
        } else {
            Ok(vault.deposit(entry, funding_authority))
        }
    }

    /// Second step of adding `entry`, given the ledger's answer to the
    /// deposit: appends the entry and returns its index where the funds have
    /// arrived, and changes nothing otherwise.
    pub fn add(&mut self, entry: RewardEntry, deposit: TransferOutcome) -> (result: Result<
        usize,
        EscrowError,
    >)
        ensures
            result == old(self).add_result(deposit),
            final(self).session == old(self).session,
            final(self).catalogue.limit() == old(self).catalogue.limit(),
            old(self).catalogue.within_limit() ==> final(self).catalogue.within_limit(),
            result is Ok ==> final(self).catalogue@ == old(self).catalogue@.push(entry),
            result is Err ==> final(self).same_state(*old(self)),
    {
        if self.catalogue.is_full() {
            return Err(EscrowError::CapacityExceeded);
        }
        match deposit {
            Ok(_) => self.catalogue.add(entry),
            Err(cause) => Err(EscrowError::TransferFailed(cause)),
        }
    }

    /// First step of overwriting slot `index` with `entry`: the deposit that
    /// the ledger has to make.
    pub fn update_request(
        &self,
        index: usize,
        entry: &RewardEntry,
        vault: &EscrowVault,
        funding_authority: AccountHandle,
    ) -> (result: Result<TransferRequest, EscrowError>)
        ensures
            result == self.replacement(index, *entry, *vault, funding_authority),
    {
        if index >= self.catalogue.len() {
            Err(EscrowError::IndexOutOfRange)
        } else {
            Ok(vault.deposit(entry, funding_authority))
        }
    }

    /// Second step of overwriting slot `index` with `entry`, given the
    /// ledger's answer to the deposit: writes the slot and returns the entry
    /// that stood there where the funds have arrived, and changes nothing
    /// otherwise.
    ///
    /// What was deposited for the previous entry stays in the vault.
    pub fn update(&mut self, index: usize, entry: RewardEntry, deposit: TransferOutcome) -> (result:
        Result<RewardEntry, EscrowError>)
        ensures
            result == old(self).update_result(index, deposit),
            final(self).session == old(self).session,
            final(self).catalogue.limit() == old(self).catalogue.limit(),
            old(self).catalogue.within_limit() ==> final(self).catalogue.within_limit(),
            result is Ok ==> final(self).catalogue@ == old(self).catalogue@.update(
                index as int,
                entry,
            ),
            result is Err ==> final(self).same_state(*old(self)),
    {
        if index >= self.catalogue.len() {
            return Err(EscrowError::IndexOutOfRange);
        }
        match deposit {
            Ok(_) => self.catalogue.update(index, entry),
            Err(cause) => Err(EscrowError::TransferFailed(cause)),
        }
    }

    /// Draws an entry for `entropy` and records it as the session's result.
    /// No funds move.
    pub fn spin(&mut self, entropy: i64) -> (index: usize)
        ensures
            index == selected(old(self).catalogue@, draw_value(entropy as int)),
            final(self).session == old(self).session.after_spin(index),
            final(self).catalogue@ == old(self).catalogue@,
            final(self).catalogue.limit() == old(self).catalogue.limit(),
    {
        let index = select(entropy, &self.catalogue);
        self.session.record(index);
        index
    }

    /// First step of a settlement: the release that the ledger has to make.
    pub fn settle_request(
        &self,
        by: Settlement,
        vault: &EscrowVault,
        destination: AccountHandle,
        vault_authority: AccountHandle,
    ) -> (result: Result<TransferRequest, EscrowError>)
        ensures
            result == self.settlement(by, *vault, destination, vault_authority),
    {
        let index = match self.session.settlement_index(by) {
            Ok(index) => index,
            Err(error) => {
                return Err(error);
            },
        };
        match self.catalogue.get(index) {
            Ok(entry) => vault.release(&entry, destination, vault_authority),
            Err(error) => Err(error),
        }
    }

    /// Second step of a settlement, given the ledger's answer to the release:
    /// returns the entry paid and, for a recorded result, consumes the record
    /// where the funds have left the vault, and changes nothing otherwise.
    pub fn settle(
        &mut self,
        by: Settlement,
        vault: &EscrowVault,
        destination: AccountHandle,
        vault_authority: AccountHandle,
        release: TransferOutcome,
    ) -> (result: Result<RewardEntry, EscrowError>)
        ensures
            result == old(self).settle_result(by, *vault, destination, vault_authority, release),
            final(self).catalogue@ == old(self).catalogue@,
            final(self).catalogue.limit() == old(self).catalogue.limit(),
            result is Ok ==> final(self).session == old(self).session.after_settlement(by),
            result is Err ==> final(self).same_state(*old(self)),
    {
        let index = match self.session.settlement_index(by) {
            Ok(index) => index,
            Err(error) => {
                return Err(error);
            },
        };
        let entry = match self.catalogue.get(index) {
            Ok(entry) => entry,
            Err(error) => {
                return Err(error);
            },
        };
        match vault.release(&entry, destination, vault_authority) {
            Ok(_) => {},
            Err(error) => {
                return Err(error);
            },
        }
        match release {
            Ok(_) => {
                self.session.mark_settled(by);
                Ok(entry)
            },
            Err(cause) => Err(EscrowError::TransferFailed(cause)),
        }
    }
}

/// An entry that has been added is found again at the index that `add`
/// returned, and the deposit that funded it raises the balance of the vault
/// by exactly the entry's units. The funding account must not be the vault
/// itself.
pub proof fn lemma_added_entry_is_held_and_funded(
    before: SpinItemList,
    after: SpinItemList,
    index: usize,
    entry: RewardEntry,
    vault: EscrowVault,
    funding_authority: AccountHandle,
    balances: Balances,
)
    requires
        before.add_result(Ok(())) == Ok::<usize, EscrowError>(index),
        after.catalogue@ == before.catalogue@.push(entry),
        entry.source_reference != vault.account,
    ensures
        before.addition(entry, vault, funding_authority) == Ok::<TransferRequest, EscrowError>(
            vault.deposit_request(entry, funding_authority),
        ),
        after.catalogue.entry_at(index) == Ok::<RewardEntry, EscrowError>(entry),
        after.catalogue@.len() == before.catalogue@.len() + 1,
        balance_of(
            balances_after(balances, vault.deposit_request(entry, funding_authority), Ok(())),
            vault.account,
        ) == balance_of(balances, vault.account) + entry.units(),
{
    before.catalogue.lemma_len_is_an_index();
    lemma_transfer_moves_exact_amount(
        balances,
        vault.deposit_request(entry, funding_authority),
        vault.account,
    );
}

/// A deposit that the ledger refuses adds nothing: the operation fails with
/// `TransferFailed` and no balance changes.
pub proof fn lemma_refused_deposit_adds_nothing(
    escrow: SpinItemList,
    entry: RewardEntry,
    vault: EscrowVault,
    funding_authority: AccountHandle,
    balances: Balances,
    cause: TransferError,
)
    requires
        !escrow.catalogue.full(),
    ensures
        escrow.add_result(Err(cause)) == Err::<usize, EscrowError>(
            EscrowError::TransferFailed(cause),
        ),
        balances_after(balances, vault.deposit_request(entry, funding_authority), Err(cause))
            == balances,
{
}

/// A settlement of an entry of the catalogue, signed by the vault's own
/// authority, moves exactly the entry's units out of the vault and into the
/// destination. The destination must not be the vault itself.
pub proof fn lemma_settlement_moves_exact_amount(
    escrow: SpinItemList,
    by: Settlement,
    vault: EscrowVault,
    destination: AccountHandle,
    balances: Balances,
)
    requires
        escrow.settled_entry(by) is Ok,
        destination != vault.account,
    ensures
        escrow.settlement(by, vault, destination, vault.authority) == Ok::<
            TransferRequest,
            EscrowError,
        >(vault.release_request(escrow.settled_entry(by)->Ok_0, destination)),
        escrow.settle_result(by, vault, destination, vault.authority, Ok(()))
            == escrow.settled_entry(by),
        balance_of(
            balances_after(
                balances,
                vault.release_request(escrow.settled_entry(by)->Ok_0, destination),
                Ok(()),
            ),
            vault.account,
        ) == balance_of(balances, vault.account) - escrow.settled_entry(by)->Ok_0.units(),
        balance_of(
            balances_after(
                balances,
                vault.release_request(escrow.settled_entry(by)->Ok_0, destination),
                Ok(()),
            ),
            destination,
        ) == balance_of(balances, destination) + escrow.settled_entry(by)->Ok_0.units(),
{
    let request = vault.release_request(escrow.settled_entry(by)->Ok_0, destination);
    lemma_transfer_moves_exact_amount(balances, request, vault.account);
}

/// A release that the vault cannot cover fails with `TransferFailed`: a
/// ledger that never pays out more than an account holds refuses it, the
/// settlement hands the refusal on, and no balance changes.
pub proof fn lemma_underfunded_settlement_fails(
    escrow: SpinItemList,
    by: Settlement,
    vault: EscrowVault,
    destination: AccountHandle,
    balances: Balances,
    release: TransferOutcome,
)
    requires
        escrow.settlement(by, vault, destination, vault.authority) is Ok,
        !funded(balances, escrow.settlement(by, vault, destination, vault.authority)->Ok_0),
        honours_balance(
            balances,
            escrow.settlement(by, vault, destination, vault.authority)->Ok_0,
            release,
        ),
    ensures
        release is Err,
        escrow.settle_result(by, vault, destination, vault.authority, release) == Err::<
            RewardEntry,
            EscrowError,
        >(EscrowError::TransferFailed(release->Err_0)),
        balances_after(
            balances,
            escrow.settlement(by, vault, destination, vault.authority)->Ok_0,
            release,
        ) == balances,
{
}

/// A settlement by an index that names no entry fails with
/// `IndexOutOfRange` before the ledger is asked for anything, whatever the
/// ledger would have answered.
pub proof fn lemma_settlement_out_of_range(
    escrow: SpinItemList,
    index: usize,
    vault: EscrowVault,
    destination: AccountHandle,
    vault_authority: AccountHandle,
    release: TransferOutcome,
)
    requires
        index >= escrow.catalogue@.len(),
    ensures
        escrow.settlement(
            (Settlement::CallerSupplied { index }),
            vault,
            destination,
            vault_authority,
        ) == Err::<TransferRequest, EscrowError>(EscrowError::IndexOutOfRange),
        escrow.settle_result(
            (Settlement::CallerSupplied { index }),
            vault,
            destination,
            vault_authority,
            release,
        ) == Err::<RewardEntry, EscrowError>(EscrowError::IndexOutOfRange),
        escrow.session.phase == (SpinPhase::Spun { index }) ==> escrow.settlement(
            Settlement::Recorded,
            vault,
            destination,
            vault_authority,
        ) == Err::<TransferRequest, EscrowError>(EscrowError::IndexOutOfRange),
{
}

/// The two steps of an operation agree: whatever the first step refuses, the
/// second step refuses for the same reason, without looking at the ledger's
/// answer.
pub proof fn lemma_steps_agree(
    escrow: SpinItemList,
    index: usize,
    entry: RewardEntry,
    by: Settlement,
    vault: EscrowVault,
    other: AccountHandle,
    authority: AccountHandle,
    outcome: TransferOutcome,
)
    ensures
        escrow.addition(entry, vault, authority) matches Err(error) ==> escrow.add_result(outcome)
            == Err::<usize, EscrowError>(error),
        escrow.replacement(index, entry, vault, authority) matches Err(error)
            ==> escrow.update_result(index, outcome) == Err::<RewardEntry, EscrowError>(error),
        escrow.settlement(by, vault, other, authority) matches Err(error) ==> escrow.settle_result(
            by,
            vault,
            other,
            authority,
            outcome,
        ) == Err::<RewardEntry, EscrowError>(error),
{
}

} // verus!
