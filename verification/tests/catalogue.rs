use spin_escrow::account::AccountHandle;
use spin_escrow::catalogue::{RewardCatalogue, RewardEntry, RewardKind};
use spin_escrow::error::EscrowError;

fn account(tag: u8) -> AccountHandle {
    AccountHandle::new([tag; 32])
}

#[test]
fn handles_compare_by_their_bytes() {
    let mut bytes = [9u8; 32];
    let first = AccountHandle::new(bytes);
    assert!(first.same(&AccountHandle::new([9u8; 32])));
    assert_eq!(first, AccountHandle::new([9u8; 32]));
    bytes[31] = 8;
    assert!(!first.same(&AccountHandle::new(bytes)));
    assert_ne!(first, AccountHandle::new(bytes));
    bytes[31] = 9;
    bytes[0] = 0;
    assert_ne!(first, AccountHandle::new(bytes));
    assert_eq!(AccountHandle::zeroed(), AccountHandle::new([0u8; 32]));
    assert_eq!(AccountHandle::zeroed().bytes, [0u8; 32]);
}

#[test]
fn entry_units_follow_the_kind() {
    let fungible = RewardEntry::fungible(30, 750, account(1));
    assert_eq!(fungible.ratio, 30);
    assert_eq!(fungible.kind, RewardKind::FungibleToken { amount: 750 });
    assert_eq!(fungible.source_reference, account(1));
    assert_eq!(fungible.amount(), 750);
    let item = RewardEntry::non_fungible(5, account(2));
    assert_eq!(item.kind, RewardKind::NonFungibleItem);
    assert_eq!(item.amount(), 1);
    let vacant = RewardEntry::empty();
    assert_eq!(vacant.ratio, 0);
    assert_eq!(vacant.amount(), 0);
    assert_eq!(vacant.source_reference, AccountHandle::zeroed());
}

#[test]
fn new_catalogue_is_empty() {
    let unbounded = RewardCatalogue::new(None);
    assert_eq!(unbounded.len(), 0);
    assert_eq!(unbounded.capacity(), None);
    assert!(!unbounded.is_full());
    assert_eq!(unbounded.get(0), Err(EscrowError::IndexOutOfRange));
    let bounded = RewardCatalogue::new(Some(2));
    assert_eq!(bounded.len(), 0);
    assert_eq!(bounded.capacity(), Some(2));
    assert!(!bounded.is_full());
    let closed = RewardCatalogue::new(Some(0));
    assert!(closed.is_full());
}

#[test]
fn add_then_get_returns_the_entry() {
    let mut catalogue = RewardCatalogue::new(None);
    let first = RewardEntry::fungible(50, 100, account(1));
    let second = RewardEntry::non_fungible(50, account(2));
    assert_eq!(catalogue.add(first), Ok(0));
    assert_eq!(catalogue.add(second), Ok(1));
    assert_eq!(catalogue.len(), 2);
    assert_eq!(catalogue.get(0), Ok(first));
    assert_eq!(catalogue.get(1), Ok(second));
    assert_eq!(catalogue.get(2), Err(EscrowError::IndexOutOfRange));
    assert_eq!(catalogue.get(usize::MAX), Err(EscrowError::IndexOutOfRange));
    assert_eq!(catalogue.entries().as_slice(), &[first, second]);
}

#[test]
fn bounded_catalogue_refuses_what_exceeds_its_capacity() {
    let mut catalogue = RewardCatalogue::new(Some(2));
    let entry = RewardEntry::fungible(10, 1, account(1));
    assert_eq!(catalogue.add(entry), Ok(0));
    assert!(!catalogue.is_full());
    assert_eq!(catalogue.add(entry), Ok(1));
    assert!(catalogue.is_full());
    let late = RewardEntry::fungible(80, 9, account(3));
    assert_eq!(catalogue.add(late), Err(EscrowError::CapacityExceeded));
    assert_eq!(catalogue.len(), 2);
    assert_eq!(catalogue.get(1), Ok(entry));
}

#[test]
fn update_overwrites_in_place() {
    let mut catalogue = RewardCatalogue::new(None);
    let first = RewardEntry::fungible(50, 100, account(1));
    let second = RewardEntry::fungible(50, 200, account(1));
    catalogue.add(first).unwrap();
    catalogue.add(second).unwrap();
    let replacement = RewardEntry::non_fungible(20, account(4));
    assert_eq!(catalogue.update(0, replacement), Ok(first));
    assert_eq!(catalogue.get(0), Ok(replacement));
    assert_eq!(catalogue.get(1), Ok(second));
    assert_eq!(catalogue.len(), 2);
    assert_eq!(catalogue.update(2, replacement), Err(EscrowError::IndexOutOfRange));
    assert_eq!(catalogue.len(), 2);
    assert_eq!(catalogue.get(1), Ok(second));
}

#[test]
fn slotted_catalogue_starts_vacant_and_full() {
    let mut catalogue = RewardCatalogue::with_slots(4);
    assert_eq!(catalogue.len(), 4);
    assert_eq!(catalogue.capacity(), Some(4));
    assert!(catalogue.is_full());
    for index in 0..4 {
        assert_eq!(catalogue.get(index), Ok(RewardEntry::empty()));
    }
    assert_eq!(catalogue.get(4), Err(EscrowError::IndexOutOfRange));
    let entry = RewardEntry::fungible(1, 1, account(1));
    assert_eq!(catalogue.add(entry), Err(EscrowError::CapacityExceeded));
    assert_eq!(catalogue.update(3, entry), Ok(RewardEntry::empty()));
    assert_eq!(catalogue.get(3), Ok(entry));
    assert_eq!(RewardCatalogue::with_slots(0).len(), 0);
}
