//! The catalogue of rewards: what can be won, with which weight, and where
//! each reward was funded from.

use vstd::prelude::*;
use crate::account::AccountHandle;
use crate::error::EscrowError;

verus! {

/// What a reward pays out.
#[derive(Clone, Copy, Debug, PartialEq, Eq, Structural)]
pub enum RewardKind {
    /// `amount` units of a fungible token.
    FungibleToken { amount: u64 },
    /// One single non-fungible item.
    NonFungibleItem,
}

/// One slot of the catalogue.
#[derive(Clone, Copy, Debug, PartialEq, Eq)]
pub struct RewardEntry {
    /// Share of the draw range, out of 100.
    pub ratio: u8,
    /// What is paid out.
    pub kind: RewardKind,
    /// The account the reward was funded from.
    pub source_reference: AccountHandle,
}

impl RewardEntry {
    /// Number of units that change hands for this entry: the amount of a
    /// fungible reward, one unit for a non-fungible item.
    pub open spec fn units(self) -> u64 {
        match self.kind {
            RewardKind::FungibleToken { amount } => amount,
            RewardKind::NonFungibleItem => 1,
        }
    }

    /// The entry of a slot that nothing has been written to: no weight, no
    /// funds, no source.
    pub open spec fn vacant() -> RewardEntry {
        RewardEntry {
            ratio: 0,
            kind: RewardKind::FungibleToken { amount: 0 },
            source_reference: AccountHandle::null(),
        }
    }

    /// A reward of `amount` fungible units with weight `ratio`.
    pub fn fungible(ratio: u8, amount: u64, source_reference: AccountHandle) -> (entry: RewardEntry)
        ensures
            entry == (RewardEntry {
                ratio,
                kind: RewardKind::FungibleToken { amount },
                source_reference,
            }),
    {
        RewardEntry { ratio, kind: RewardKind::FungibleToken { amount }, source_reference }
    }

    /// A reward of one non-fungible item with weight `ratio`.
    pub fn non_fungible(ratio: u8, source_reference: AccountHandle) -> (entry: RewardEntry)
        ensures
            entry == (RewardEntry { ratio, kind: RewardKind::NonFungibleItem, source_reference }),
    {
        RewardEntry { ratio, kind: RewardKind::NonFungibleItem, source_reference }
    }

    /// The entry of an unwritten slot.
    pub fn empty() -> (entry: RewardEntry)
        ensures
            entry == RewardEntry::vacant(),
    {
        RewardEntry {
            ratio: 0,
            kind: RewardKind::FungibleToken { amount: 0 },
            source_reference: AccountHandle::zeroed(),
        }
    }

    /// Number of units that change hands for this entry.
    pub fn amount(&self) -> (units: u64)
        ensures
            units == self.units(),
    {
        match self.kind {
            RewardKind::FungibleToken { amount } => amount,
            RewardKind::NonFungibleItem => 1,
        }
    }
}

/// The ordered list of rewards of one escrow, optionally bounded in length.
///
/// Entries are addressed by position, are appended or overwritten in place,
/// and are never removed.
#[derive(Debug)]
pub struct RewardCatalogue {
    entries: Vec<RewardEntry>,
    capacity: Option<usize>,
}

impl View for RewardCatalogue {
    type V = Seq<RewardEntry>;

    closed spec fn view(&self) -> Seq<RewardEntry> {
        self.entries@
    }
}

impl RewardCatalogue {
    /// The largest number of entries the catalogue may hold, if it is bounded.
    pub closed spec fn limit(&self) -> Option<usize> {
        self.capacity
    }

    /// Whether the catalogue holds no more entries than it may. Every
    /// catalogue starts out so and every operation keeps it so.
    pub open spec fn within_limit(&self) -> bool {
        match self.limit() {
            Some(limit) => self@.len() <= limit,
            None => true,
        }
    }

    /// Whether no further entry can be appended.
    pub open spec fn full(&self) -> bool {
        match self.limit() {
            Some(limit) => self@.len() >= limit,
            None => false,
        }
    }

    /// What looking up `index` returns: the entry there, or `IndexOutOfRange`
    /// where the catalogue has no such entry.
    pub open spec fn entry_at(&self, index: usize) -> Result<RewardEntry, EscrowError> {
        if index < self@.len() {
            Ok(self@[index as int])
        } else {
            Err(EscrowError::IndexOutOfRange)
        }
    }

    /// The number of entries of a catalogue fits the index type.
    pub proof fn lemma_len_is_an_index(&self)
        ensures
            self@.len() <= usize::MAX,
    {
        assert(self.entries.len() == self.entries@.len());
    }

    /// An empty catalogue that may grow to `capacity` entries, or without
    /// bound where `capacity` is `None`.
    pub fn new(capacity: Option<usize>) -> (catalogue: RewardCatalogue)
        ensures
            catalogue@ == Seq::<RewardEntry>::empty(),
            catalogue.limit() == capacity,
            catalogue.within_limit(),
    {
        RewardCatalogue { entries: Vec::new(), capacity }
    }

    /// A catalogue of exactly `slots` entries, all of them vacant, that can
    /// never grow: its slots are written in place.
    pub fn with_slots(slots: usize) -> (catalogue: RewardCatalogue)
        ensures
            catalogue@ == Seq::new(slots as nat, |i: int| RewardEntry::vacant()),
            catalogue.limit() == Some(slots),
            catalogue.within_limit(),
            catalogue.full(),
    {
        let mut entries: Vec<RewardEntry> = Vec::new();
        let mut i: usize = 0;
        while i < slots
            invariant
                i <= slots,
                entries@ == Seq::new(i as nat, |j: int| RewardEntry::vacant()),
            decreases slots - i,
        {
            entries.push(RewardEntry::empty());
            i += 1;
        }
        RewardCatalogue { entries, capacity: Some(slots) }
    }

    /// The entries in catalogue order.
    pub fn entries(&self) -> (entries: &Vec<RewardEntry>)
        ensures
            entries@ == self@,
    {
        &self.entries
    }

    /// Number of entries.
    pub fn len(&self) -> (n: usize)
        ensures
            n == self@.len(),
    {
        self.entries.len()
    }

    /// The bound on the number of entries, if there is one.
    pub fn capacity(&self) -> (capacity: Option<usize>)
        ensures
            capacity == self.limit(),
    {
        self.capacity
    }

    /// Whether no further entry can be appended.
    pub fn is_full(&self) -> (full: bool)
        ensures
            full == self.full(),
    {
        match self.capacity {
            Some(limit) => self.entries.len() >= limit,
            None => false,
        }
    }

    /// The entry at `index`, or `IndexOutOfRange` where the catalogue has no
    /// such entry.
    pub fn get(&self, index: usize) -> (result: Result<RewardEntry, EscrowError>)
        ensures
            result == self.entry_at(index),
    {
        if index < self.entries.len() {
            Ok(self.entries[index])
        } else {
            Err(EscrowError::IndexOutOfRange)
        }
    }

    /// Appends `entry` and returns its index; a full catalogue is left as it
    /// is.
    pub fn add(&mut self, entry: RewardEntry) -> (result: Result<usize, EscrowError>)
        ensures
            final(self).limit() == old(self).limit(),
            old(self).within_limit() ==> final(self).within_limit(),
            !old(self).full() ==> result == Ok::<usize, EscrowError>(old(self)@.len() as usize)
                && final(self)@ == old(self)@.push(entry),
            old(self).full() ==> result == Err::<usize, EscrowError>(
                EscrowError::CapacityExceeded,
            ) && final(self)@ == old(self)@,
    {
        if self.is_full() {
            return Err(EscrowError::CapacityExceeded);
        }
        let index = self.entries.len();
        self.entries.push(entry);
        Ok(index)
    }

    /// Overwrites the entry at `index` and returns the entry that stood there.
    pub fn update(&mut self, index: usize, entry: RewardEntry) -> (result: Result<
        RewardEntry,
        EscrowError,
    >)
        ensures
            final(self).limit() == old(self).limit(),
            old(self).within_limit() ==> final(self).within_limit(),
            index < old(self)@.len() ==> result == Ok::<RewardEntry, EscrowError>(
                old(self)@[index as int],
            ) && final(self)@ == old(self)@.update(index as int, entry),
            index >= old(self)@.len() ==> result == Err::<RewardEntry, EscrowError>(
                EscrowError::IndexOutOfRange,
            ) && final(self)@ == old(self)@,
    {
        if index >= self.entries.len() {
            return Err(EscrowError::IndexOutOfRange);
        }
        let previous = self.entries[index];
        self.entries.set(index, entry);
        Ok(previous)
    }
}

} // verus!
