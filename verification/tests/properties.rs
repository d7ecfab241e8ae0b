//! Concrete instances of the ledger's laws, its edge cases, and one input
//! for each reachable error.

use escrow_ledger::AccountId;
use escrow_ledger::Error;
use escrow_ledger::EscrowSmartContract;
use escrow_ledger::EscrowState;
use escrow_ledger::Event;
use escrow_ledger::FundMovement;
use escrow_ledger::Initiated;

fn alice() -> AccountId {
    AccountId { hi: 0, lo: 1 }
}

fn bob() -> AccountId {
    AccountId { hi: 0, lo: 2 }
}

fn charlie() -> AccountId {
    AccountId { hi: 0, lo: 3 }
}

#[test]
fn ids_increase_from_zero() {
    let mut contract = EscrowSmartContract::new();
    assert_eq!(contract.initiate_escrow(alice(), bob(), 100), Ok(0));
    assert_eq!(contract.initiate_escrow(bob(), charlie(), 5), Ok(1));
    assert_eq!(contract.initiate_escrow(alice(), charlie(), 0), Ok(2));
}

#[test]
fn self_dealing_fails_for_any_amount() {
    let mut contract = EscrowSmartContract::new();
    assert_eq!(contract.initiate_escrow(bob(), bob(), 0), Err(Error::InvalidParticipants));
    assert_eq!(contract.initiate_escrow(bob(), bob(), 100), Err(Error::InvalidParticipants));
    assert_eq!(
        contract.initiate_escrow(bob(), bob(), u128::MAX),
        Err(Error::InvalidParticipants)
    );
    // A rejected initiation consumes no id
    assert_eq!(contract.initiate_escrow(alice(), bob(), 100), Ok(0));
}

#[test]
fn deposit_needs_exact_amount() {
    let mut contract = EscrowSmartContract::new();
    let escrow_id = contract.initiate_escrow(alice(), bob(), 100).unwrap();

    assert_eq!(contract.deposit_assets(alice(), escrow_id, 99), Err(Error::InvalidAmount));
    assert_eq!(contract.deposit_assets(alice(), escrow_id, 101), Err(Error::InvalidAmount));
    // The record is still Created, so the exact deposit still goes through
    assert_eq!(contract.get_escrow(escrow_id).unwrap().state, EscrowState::Created);
    assert_eq!(contract.deposit_assets(alice(), escrow_id, 100), Ok(()));
    assert_eq!(contract.get_escrow(escrow_id).unwrap().state, EscrowState::Funded);
}

#[test]
fn approving_twice_fails() {
    let mut contract = EscrowSmartContract::new();
    let escrow_id = contract.initiate_escrow(alice(), bob(), 100).unwrap();
    contract.deposit_assets(alice(), escrow_id, 100).unwrap();

    assert_eq!(contract.complete_escrow(alice(), escrow_id), Ok(None));
    assert_eq!(contract.complete_escrow(alice(), escrow_id), Err(Error::AlreadyApproved));

    // Only the buyer's flag is set, and the record is still Funded
    let escrow = contract.get_escrow(escrow_id).unwrap();
    assert!(escrow.buyer_approved);
    assert!(!escrow.seller_approved);
    assert_eq!(escrow.state, EscrowState::Funded);

    // The seller may still approve once
    assert_eq!(
        contract.complete_escrow(bob(), escrow_id),
        Ok(Some(FundMovement { escrow_id, to: bob(), amount: 100 }))
    );
}

#[test]
fn completion_settles_the_full_amount_once() {
    let mut contract = EscrowSmartContract::new();
    let escrow_id = contract.initiate_escrow(alice(), bob(), 100).unwrap();
    contract.deposit_assets(alice(), escrow_id, 100).unwrap();

    // Approvals in seller-then-buyer order work as well
    assert_eq!(contract.complete_escrow(bob(), escrow_id), Ok(None));
    let movement = contract.complete_escrow(alice(), escrow_id).unwrap().unwrap();
    assert_eq!(movement, FundMovement { escrow_id, to: bob(), amount: 100 });

    assert_eq!(contract.finalize_completion(escrow_id), Ok(()));
    assert_eq!(contract.transfers, vec![FundMovement { escrow_id, to: bob(), amount: 100 }]);

    // Completed is terminal: no path settles a second movement
    assert_eq!(contract.finalize_completion(escrow_id), Err(Error::InvalidState));
    assert_eq!(contract.complete_escrow(alice(), escrow_id), Err(Error::InvalidState));
    assert_eq!(contract.cancel_escrow(bob(), escrow_id), Err(Error::InvalidState));
    assert_eq!(contract.transfers.len(), 1);
}

#[test]
fn end_to_end_completion() {
    // buyer A, seller B, amount 100
    let mut contract = EscrowSmartContract::new();
    let escrow_id = contract.initiate_escrow(alice(), bob(), 100).unwrap();
    assert_eq!(escrow_id, 0);

    contract.deposit_assets(alice(), escrow_id, 100).unwrap();
    assert_eq!(contract.get_escrow(escrow_id).unwrap().state, EscrowState::Funded);

    assert_eq!(contract.complete_escrow(alice(), escrow_id), Ok(None));
    let escrow = contract.get_escrow(escrow_id).unwrap();
    assert_eq!(escrow.state, EscrowState::Funded);
    assert!(escrow.buyer_approved);

    let movement = contract.complete_escrow(bob(), escrow_id).unwrap().unwrap();
    assert_eq!(movement.to, bob());
    assert_eq!(movement.amount, 100);
    contract.finalize_completion(escrow_id).unwrap();
    assert_eq!(contract.get_escrow(escrow_id).unwrap().state, EscrowState::Completed);
}

#[test]
fn cancel_created_moves_no_funds() {
    // id 0 created with amount 50, never deposited, canceled by the seller
    let mut contract = EscrowSmartContract::new();
    let escrow_id = contract.initiate_escrow(alice(), bob(), 50).unwrap();
    assert_eq!(escrow_id, 0);

    assert_eq!(contract.cancel_escrow(bob(), escrow_id), Ok(None));
    assert_eq!(contract.get_escrow(escrow_id).unwrap().state, EscrowState::Canceled);
    assert!(contract.transfers.is_empty());
}

#[test]
fn cancel_funded_refunds_the_buyer() {
    let mut contract = EscrowSmartContract::new();
    let escrow_id = contract.initiate_escrow(alice(), bob(), 100).unwrap();
    contract.deposit_assets(alice(), escrow_id, 100).unwrap();

    // The demanded movement is the refund; the record waits for settlement
    let refund = contract.cancel_escrow(bob(), escrow_id).unwrap().unwrap();
    assert_eq!(refund, FundMovement { escrow_id, to: alice(), amount: 100 });
    assert_eq!(contract.get_escrow(escrow_id).unwrap().state, EscrowState::Funded);

    assert_eq!(contract.finalize_cancellation(escrow_id), Ok(()));
    assert_eq!(contract.get_escrow(escrow_id).unwrap().state, EscrowState::Canceled);
    assert_eq!(contract.transfers, vec![FundMovement { escrow_id, to: alice(), amount: 100 }]);
}

#[test]
fn recanceling_succeeds_but_changes_nothing() {
    let mut contract = EscrowSmartContract::new();
    let escrow_id = contract.initiate_escrow(alice(), bob(), 100).unwrap();
    assert_eq!(contract.cancel_escrow(alice(), escrow_id), Ok(None));
    let canceled = contract.get_escrow(escrow_id).unwrap();

    // Cancellation is not blocked on a Canceled record: it succeeds again,
    // re-emits the event, and leaves the record as it was
    let emitted = contract.events.len();
    assert_eq!(contract.cancel_escrow(bob(), escrow_id), Ok(None));
    assert_eq!(contract.get_escrow(escrow_id).unwrap(), canceled);
    assert!(contract.transfers.is_empty());
    assert_eq!(contract.events.len(), emitted + 1);
    assert!(matches!(contract.events[emitted], Event::Canceled(e) if e.escrow_id == escrow_id));
}

#[test]
fn lookup_of_missing_id_is_none() {
    let mut contract = EscrowSmartContract::new();
    assert_eq!(contract.get_escrow(0), None);
    assert_eq!(contract.get_escrow(999), None);
    contract.initiate_escrow(alice(), bob(), 100).unwrap();
    assert_eq!(contract.get_escrow(999), None);
}

#[test]
fn operations_on_missing_ids_fail_not_found() {
    let mut contract = EscrowSmartContract::new();
    assert_eq!(contract.deposit_assets(alice(), 7, 100), Err(Error::NotFound));
    assert_eq!(contract.complete_escrow(alice(), 7), Err(Error::NotFound));
    assert_eq!(contract.cancel_escrow(alice(), 7), Err(Error::NotFound));
    assert_eq!(contract.finalize_completion(7), Err(Error::NotFound));
    assert_eq!(contract.finalize_cancellation(7), Err(Error::NotFound));
}

#[test]
fn exhausted_id_space_fails_id_overflow() {
    let mut contract = EscrowSmartContract::new();
    contract.store.next_id = u64::MAX;
    assert_eq!(contract.initiate_escrow(alice(), bob(), 100), Err(Error::IdOverflow));
}

#[test]
fn settlement_needs_both_approvals() {
    let mut contract = EscrowSmartContract::new();
    let escrow_id = contract.initiate_escrow(alice(), bob(), 100).unwrap();
    contract.deposit_assets(alice(), escrow_id, 100).unwrap();

    assert_eq!(contract.finalize_completion(escrow_id), Err(Error::InvalidState));
    contract.complete_escrow(alice(), escrow_id).unwrap();
    assert_eq!(contract.finalize_completion(escrow_id), Err(Error::InvalidState));

    // Settling a refund needs a Funded record
    let other = contract.initiate_escrow(alice(), bob(), 5).unwrap();
    assert_eq!(contract.finalize_cancellation(other), Err(Error::InvalidState));
}

#[test]
fn events_record_the_lifecycle() {
    let mut contract = EscrowSmartContract::new();
    let escrow_id = contract.initiate_escrow(alice(), bob(), 100).unwrap();
    assert_eq!(
        contract.events[0],
        Event::Initiated(Initiated {
            escrow_id,
            buyer: alice(),
            seller: bob(),
            amount: 100,
        })
    );

    contract.deposit_assets(alice(), escrow_id, 100).unwrap();
    assert_eq!(contract.events.len(), 2);
    assert!(matches!(contract.events[1], Event::Deposited(d) if d.escrow_id == escrow_id
        && d.amount == 100));

    contract.complete_escrow(alice(), escrow_id).unwrap();
    // A lone approval emits nothing
    assert_eq!(contract.events.len(), 2);

    contract.complete_escrow(bob(), escrow_id).unwrap();
    contract.finalize_completion(escrow_id).unwrap();
    assert_eq!(contract.events.len(), 3);
    assert!(matches!(contract.events[2], Event::Completed(e) if e.escrow_id == escrow_id));
}
