//! Tests of the record store and its monotonic id allocator.

use escrow_ledger::AccountId;
use escrow_ledger::Error;
use escrow_ledger::Escrow;
use escrow_ledger::EscrowState;
use escrow_ledger::EscrowStore;

fn record(lo_buyer: u128, lo_seller: u128, amount: u128) -> Escrow {
    Escrow {
        buyer: AccountId { hi: 0, lo: lo_buyer },
        seller: AccountId { hi: 0, lo: lo_seller },
        amount,
        buyer_approved: false,
        seller_approved: false,
        state: EscrowState::Created,
    }
}

#[test]
fn allocator_counts_up_from_zero() {
    let mut store = EscrowStore::new();
    assert_eq!(store.allocate_id(), Ok(0));
    assert_eq!(store.allocate_id(), Ok(1));
    assert_eq!(store.allocate_id(), Ok(2));
}

#[test]
fn allocator_fails_when_exhausted() {
    let mut store = EscrowStore::new();
    store.next_id = u64::MAX;
    assert_eq!(store.allocate_id(), Err(Error::IdOverflow));
    // Nothing changed: the exhaustion is permanent
    assert_eq!(store.allocate_id(), Err(Error::IdOverflow));
}

#[test]
fn put_get_contains_roundtrip() {
    let mut store = EscrowStore::new();
    assert_eq!(store.get(4), None);
    assert!(!store.contains(4));

    let first = record(1, 2, 100);
    store.put(4, first);
    assert!(store.contains(4));
    assert_eq!(store.get(4), Some(first));

    // put overwrites the record as a whole
    let second = record(3, 4, 7);
    store.put(4, second);
    assert_eq!(store.get(4), Some(second));
    assert!(!store.contains(5));
}
