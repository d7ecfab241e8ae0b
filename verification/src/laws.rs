//! The proved laws of the escrow ledger.
//!
//! Each law is a public proof function over the transition predicates of
//! [`crate::machine`]: its hypotheses are that the involved operations took
//! place (that their predicates relate the successive ledger states), and
//! its conclusion is what must then hold. Because every operation ensures
//! exactly its predicate, the laws hold of every run of the executable code.

use vstd::prelude::*;
use crate::machine::cancel_spec;
use crate::machine::complete_spec;
use crate::machine::deposit_spec;
use crate::machine::finalize_cancellation_spec;
use crate::machine::finalize_completion_spec;
use crate::machine::initiate_spec;
use crate::machine::unchanged;
use crate::machine::EscrowSmartContract;
use crate::types::AccountId;
use crate::types::Balance;
use crate::types::Error;
use crate::types::Escrow;
use crate::types::EscrowId;
use crate::types::EscrowState;
use crate::types::FundMovement;

verus! {

/// On a ledger whose allocator stands at 0 — as it does on a fresh ledger —
/// the first successful initiation returns id 0.
pub proof fn lemma_first_initiated_id_is_zero(
    c0: EscrowSmartContract,
    c1: EscrowSmartContract,
    caller: AccountId,
    seller: AccountId,
    amount: Balance,
    id: EscrowId,
)
    requires
        c0.next_id() == 0,
        initiate_spec(c0, c1, caller, seller, amount, Ok(id)),
    ensures
        id == 0,
{
}

/// Successive successful initiations return strictly increasing ids: each
/// one is exactly one above the last, whatever parties and amounts are
/// involved.
pub proof fn lemma_initiated_ids_strictly_increase(
    c0: EscrowSmartContract,
    c1: EscrowSmartContract,
    c2: EscrowSmartContract,
    caller1: AccountId,
    seller1: AccountId,
    amount1: Balance,
    caller2: AccountId,
    seller2: AccountId,
    amount2: Balance,
    id1: EscrowId,
    id2: EscrowId,
)
    requires
        initiate_spec(c0, c1, caller1, seller1, amount1, Ok(id1)),
        initiate_spec(c1, c2, caller2, seller2, amount2, Ok(id2)),
    ensures
        id2 == id1 + 1,
        id1 < id2,
{
}

/// Initiating an escrow with oneself always fails with
/// `InvalidParticipants`, whatever the amount, and changes nothing — in
/// particular it consumes no id.
pub proof fn lemma_self_dealing_rejected(
    c0: EscrowSmartContract,
    c1: EscrowSmartContract,
    caller: AccountId,
    amount: Balance,
    r: Result<EscrowId, Error>,
)
    requires
        initiate_spec(c0, c1, caller, caller, amount, r),
    ensures
        r == Err::<EscrowId, Error>(Error::InvalidParticipants),
        unchanged(c0, c1),
{
}

/// A successful initiation stores exactly the fresh record: the caller as
/// buyer, the given seller and amount, no approvals, state `Created`.
pub proof fn lemma_initiated_record_is_created(
    c0: EscrowSmartContract,
    c1: EscrowSmartContract,
    caller: AccountId,
    seller: AccountId,
    amount: Balance,
    id: EscrowId,
)
    requires
        initiate_spec(c0, c1, caller, seller, amount, Ok(id)),
    ensures
        c1.escrows().contains_key(id),
        c1.escrows()[id] == Escrow::initial(caller, seller, amount),
        c1.escrows()[id].state == EscrowState::Created,
{
}

/// A record stays `Created` until a deposit succeeds: neither approving nor
/// settling a completion can touch a `Created` record — both fail with
/// `InvalidState` and change nothing.
pub proof fn lemma_created_until_deposited(
    c0: EscrowSmartContract,
    cc: EscrowSmartContract,
    cf: EscrowSmartContract,
    caller: AccountId,
    escrow_id: EscrowId,
    rc: Result<Option<FundMovement>, Error>,
    rf: Result<(), Error>,
)
    requires
        c0.escrows().contains_key(escrow_id),
        c0.escrows()[escrow_id].state == EscrowState::Created,
        complete_spec(c0, cc, caller, escrow_id, rc),
        finalize_completion_spec(c0, cf, escrow_id, rf),
    ensures
        rc == Err::<Option<FundMovement>, Error>(Error::InvalidState),
        unchanged(c0, cc),
        rf == Err::<(), Error>(Error::InvalidState),
        unchanged(c0, cf),
{
}

/// A deposit whose attached value differs from the agreed amount fails with
/// `InvalidAmount` and changes nothing.
pub proof fn lemma_deposit_needs_exact_amount(
    c0: EscrowSmartContract,
    c1: EscrowSmartContract,
    escrow_id: EscrowId,
    attached_value: Balance,
    r: Result<(), Error>,
)
    requires
        c0.escrows().contains_key(escrow_id),
        c0.escrows()[escrow_id].state == EscrowState::Created,
        attached_value != c0.escrows()[escrow_id].amount,
        deposit_spec(
            c0,
            c1,
            c0.escrows()[escrow_id].buyer,
            escrow_id,
            attached_value,
            r,
        ),
    ensures
        r == Err::<(), Error>(Error::InvalidAmount),
        unchanged(c0, c1),
{
}

/// Depositing twice fails: after one successful deposit, a second deposit
/// by the buyer fails with `InvalidState`, whatever value it attaches, and
/// changes nothing.
pub proof fn lemma_deposit_twice_rejected(
    c0: EscrowSmartContract,
    c1: EscrowSmartContract,
    c2: EscrowSmartContract,
    caller: AccountId,
    escrow_id: EscrowId,
    value1: Balance,
    value2: Balance,
    r2: Result<(), Error>,
)
    requires
        deposit_spec(c0, c1, caller, escrow_id, value1, Ok(())),
        deposit_spec(c1, c2, caller, escrow_id, value2, r2),
    ensures
        r2 == Err::<(), Error>(Error::InvalidState),
        unchanged(c1, c2),
{
}

/// After one party approves a `Funded` escrow, the record stays `Funded`
/// with only that party's approval flag set, no fund movement is demanded,
/// and the same party approving again fails with `AlreadyApproved`, again
/// changing nothing.
pub proof fn lemma_one_approval_keeps_funded(
    c0: EscrowSmartContract,
    c1: EscrowSmartContract,
    c2: EscrowSmartContract,
    caller: AccountId,
    escrow_id: EscrowId,
    e0: Escrow,
    m1: Option<FundMovement>,
    r2: Result<Option<FundMovement>, Error>,
)
    requires
        c0.wf(),
        c0.escrows().contains_key(escrow_id),
        e0 == c0.escrows()[escrow_id],
        e0.state == EscrowState::Funded,
        !e0.buyer_approved,
        !e0.seller_approved,
        caller == e0.buyer || caller == e0.seller,
        complete_spec(c0, c1, caller, escrow_id, Ok(m1)),
        complete_spec(c1, c2, caller, escrow_id, r2),
    ensures
        m1 == None::<FundMovement>,
        c1.escrows().contains_key(escrow_id),
        c1.escrows()[escrow_id].state == EscrowState::Funded,
        c1.escrows()[escrow_id].buyer_approved == (caller == e0.buyer),
        c1.escrows()[escrow_id].seller_approved == (caller == e0.seller),
        c1.escrows()[escrow_id].buyer == e0.buyer,
        c1.escrows()[escrow_id].seller == e0.seller,
        c1.escrows()[escrow_id].amount == e0.amount,
        r2 == Err::<Option<FundMovement>, Error>(Error::AlreadyApproved),
        unchanged(c1, c2),
{
}

/// Once both parties have approved a `Funded` escrow — in either order —
/// the second approval demands the release of the full amount to the
/// seller, and settling that release completes the escrow: the record
/// becomes `Completed` and exactly one release movement enters the
/// fund-movement log. (`lemma_completed_is_terminal` rules any further
/// movement for the record out.)
pub proof fn lemma_both_approvals_complete(
    c0: EscrowSmartContract,
    c1: EscrowSmartContract,
    c2: EscrowSmartContract,
    c3: EscrowSmartContract,
    party1: AccountId,
    party2: AccountId,
    escrow_id: EscrowId,
    e0: Escrow,
    m1: Option<FundMovement>,
    m2: Option<FundMovement>,
    rf: Result<(), Error>,
)
    requires
        c0.wf(),
        c0.escrows().contains_key(escrow_id),
        e0 == c0.escrows()[escrow_id],
        e0.state == EscrowState::Funded,
        !e0.buyer_approved,
        !e0.seller_approved,
        party1 == e0.buyer || party1 == e0.seller,
        party2 == e0.buyer || party2 == e0.seller,
        party1 != party2,
        complete_spec(c0, c1, party1, escrow_id, Ok(m1)),
        complete_spec(c1, c2, party2, escrow_id, Ok(m2)),
        finalize_completion_spec(c2, c3, escrow_id, rf),
    ensures
        m1 == None::<FundMovement>,
        m2 == Some(FundMovement { escrow_id, to: e0.seller, amount: e0.amount }),
        rf == Ok::<(), Error>(()),
        c3.escrows().contains_key(escrow_id),
        c3.escrows()[escrow_id].state == EscrowState::Completed,
        c3.escrows()[escrow_id].buyer_approved,
        c3.escrows()[escrow_id].seller_approved,
        c3.transfer_log() == c2.transfer_log().push(
            FundMovement { escrow_id, to: e0.seller, amount: e0.amount },
        ),
        c2.transfer_log() == c0.transfer_log(),
{
}

/// Canceling a `Created` escrow transitions it directly to `Canceled`: no
/// fund movement is demanded or logged, and only a `Canceled` event is
/// emitted.
pub proof fn lemma_cancel_created_moves_no_funds(
    c0: EscrowSmartContract,
    c1: EscrowSmartContract,
    caller: AccountId,
    escrow_id: EscrowId,
    e0: Escrow,
    r: Result<Option<FundMovement>, Error>,
)
    requires
        c0.escrows().contains_key(escrow_id),
        e0 == c0.escrows()[escrow_id],
        e0.state == EscrowState::Created,
        caller == e0.buyer || caller == e0.seller,
        cancel_spec(c0, c1, caller, escrow_id, r),
    ensures
        r == Ok::<Option<FundMovement>, Error>(None),
        c1.escrows().contains_key(escrow_id),
        c1.escrows()[escrow_id] == (Escrow { state: EscrowState::Canceled, ..e0 }),
        c1.transfer_log() == c0.transfer_log(),
{
}

/// Canceling a `Funded` escrow refunds the buyer and then transitions the
/// record to `Canceled`: the cancellation demands the refund of the full
/// amount to the buyer while leaving the record untouched, and settling the
/// refund cancels the record and logs exactly that refund.
pub proof fn lemma_cancel_funded_refunds_buyer(
    c0: EscrowSmartContract,
    c1: EscrowSmartContract,
    c2: EscrowSmartContract,
    caller: AccountId,
    escrow_id: EscrowId,
    e0: Escrow,
    m: Option<FundMovement>,
    rf: Result<(), Error>,
)
    requires
        c0.escrows().contains_key(escrow_id),
        e0 == c0.escrows()[escrow_id],
        e0.state == EscrowState::Funded,
        caller == e0.buyer || caller == e0.seller,
        cancel_spec(c0, c1, caller, escrow_id, Ok(m)),
        finalize_cancellation_spec(c1, c2, escrow_id, rf),
    ensures
        m == Some(FundMovement { escrow_id, to: e0.buyer, amount: e0.amount }),
        unchanged(c0, c1),
        rf == Ok::<(), Error>(()),
        c2.escrows().contains_key(escrow_id),
        c2.escrows()[escrow_id] == (Escrow { state: EscrowState::Canceled, ..e0 }),
        c2.transfer_log() == c0.transfer_log().push(
            FundMovement { escrow_id, to: e0.buyer, amount: e0.amount },
        ),
{
}

/// `Completed` is terminal: on a `Completed` record every operation fails
/// and changes nothing. In particular either party's cancellation fails
/// with `InvalidState`, approval and settlement fail with `InvalidState`,
/// and no further fund movement for the record can ever be demanded or
/// logged.
pub proof fn lemma_completed_is_terminal(
    c0: EscrowSmartContract,
    cd: EscrowSmartContract,
    cc: EscrowSmartContract,
    cx: EscrowSmartContract,
    cf: EscrowSmartContract,
    cg: EscrowSmartContract,
    caller: AccountId,
    escrow_id: EscrowId,
    attached_value: Balance,
    rd: Result<(), Error>,
    rc: Result<Option<FundMovement>, Error>,
    rx: Result<Option<FundMovement>, Error>,
    rf: Result<(), Error>,
    rg: Result<(), Error>,
)
    requires
        c0.escrows().contains_key(escrow_id),
        c0.escrows()[escrow_id].state == EscrowState::Completed,
        deposit_spec(c0, cd, caller, escrow_id, attached_value, rd),
        complete_spec(c0, cc, caller, escrow_id, rc),
        cancel_spec(c0, cx, caller, escrow_id, rx),
        finalize_completion_spec(c0, cf, escrow_id, rf),
        finalize_cancellation_spec(c0, cg, escrow_id, rg),
    ensures
        rd.is_err() && unchanged(c0, cd),
        rc == Err::<Option<FundMovement>, Error>(Error::InvalidState) && unchanged(c0, cc),
        rx.is_err() && unchanged(c0, cx),
        caller == c0.escrows()[escrow_id].buyer || caller == c0.escrows()[escrow_id].seller
            ==> rx == Err::<Option<FundMovement>, Error>(Error::InvalidState),
        rf == Err::<(), Error>(Error::InvalidState) && unchanged(c0, cf),
        rg == Err::<(), Error>(Error::InvalidState) && unchanged(c0, cg),
{
}

/// `Canceled` is terminal for the record itself: deposits, approvals and
/// settlements all fail and change nothing, and though a party may repeat
/// the cancellation — which succeeds, demands no movement and re-emits the
/// event — the stored records do not change.
pub proof fn lemma_canceled_is_terminal(
    c0: EscrowSmartContract,
    cd: EscrowSmartContract,
    cc: EscrowSmartContract,
    cx: EscrowSmartContract,
    cf: EscrowSmartContract,
    cg: EscrowSmartContract,
    caller: AccountId,
    escrow_id: EscrowId,
    attached_value: Balance,
    rd: Result<(), Error>,
    rc: Result<Option<FundMovement>, Error>,
    rx: Result<Option<FundMovement>, Error>,
    rf: Result<(), Error>,
    rg: Result<(), Error>,
)
    requires
        c0.escrows().contains_key(escrow_id),
        c0.escrows()[escrow_id].state == EscrowState::Canceled,
        deposit_spec(c0, cd, caller, escrow_id, attached_value, rd),
        complete_spec(c0, cc, caller, escrow_id, rc),
        cancel_spec(c0, cx, caller, escrow_id, rx),
        finalize_completion_spec(c0, cf, escrow_id, rf),
        finalize_cancellation_spec(c0, cg, escrow_id, rg),
    ensures
        rd.is_err() && unchanged(c0, cd),
        rc == Err::<Option<FundMovement>, Error>(Error::InvalidState) && unchanged(c0, cc),
        rf == Err::<(), Error>(Error::InvalidState) && unchanged(c0, cf),
        rg == Err::<(), Error>(Error::InvalidState) && unchanged(c0, cg),
        caller == c0.escrows()[escrow_id].buyer || caller == c0.escrows()[escrow_id].seller
            ==> rx == Ok::<Option<FundMovement>, Error>(None) && cx.escrows() == c0.escrows()
                && cx.transfer_log() == c0.transfer_log(),
{
    let e0 = c0.escrows()[escrow_id];
    if caller == e0.buyer || caller == e0.seller {
        assert((Escrow { state: EscrowState::Canceled, ..e0 }) == e0);
        assert(cx.escrows() =~= c0.escrows());
    }
}

/// Any caller other than the buyer and the seller is rejected with
/// `Unauthorized` by deposit and cancel, and by approval of a `Funded`
/// record — approval of a record in any other state is rejected with
/// `InvalidState` before the caller is even considered. Nothing changes.
pub proof fn lemma_stranger_is_rejected(
    c0: EscrowSmartContract,
    cd: EscrowSmartContract,
    cc: EscrowSmartContract,
    cx: EscrowSmartContract,
    caller: AccountId,
    escrow_id: EscrowId,
    attached_value: Balance,
    rd: Result<(), Error>,
    rc: Result<Option<FundMovement>, Error>,
    rx: Result<Option<FundMovement>, Error>,
)
    requires
        c0.escrows().contains_key(escrow_id),
        caller != c0.escrows()[escrow_id].buyer,
        caller != c0.escrows()[escrow_id].seller,
        deposit_spec(c0, cd, caller, escrow_id, attached_value, rd),
        complete_spec(c0, cc, caller, escrow_id, rc),
        cancel_spec(c0, cx, caller, escrow_id, rx),
    ensures
        rd == Err::<(), Error>(Error::Unauthorized) && unchanged(c0, cd),
        c0.escrows()[escrow_id].state == EscrowState::Funded
            ==> rc == Err::<Option<FundMovement>, Error>(Error::Unauthorized),
        c0.escrows()[escrow_id].state != EscrowState::Funded
            ==> rc == Err::<Option<FundMovement>, Error>(Error::InvalidState),
        unchanged(c0, cc),
        rx == Err::<Option<FundMovement>, Error>(Error::Unauthorized) && unchanged(c0, cx),
{
}

/// Records are never deleted and their negotiated terms never change: after
/// any operation, every previously stored record is still stored, under the
/// same id, with the same buyer, seller and amount.
pub proof fn lemma_records_and_terms_persist(
    c0: EscrowSmartContract,
    c1: EscrowSmartContract,
    caller: AccountId,
    seller: AccountId,
    amount: Balance,
    attached_value: Balance,
    escrow_id: EscrowId,
    ri: Result<EscrowId, Error>,
    rd: Result<(), Error>,
    rc: Result<Option<FundMovement>, Error>,
    rx: Result<Option<FundMovement>, Error>,
    rf: Result<(), Error>,
    rg: Result<(), Error>,
)
    requires
        c0.wf(),
        initiate_spec(c0, c1, caller, seller, amount, ri) || deposit_spec(
            c0,
            c1,
            caller,
            escrow_id,
            attached_value,
            rd,
        ) || complete_spec(c0, c1, caller, escrow_id, rc) || cancel_spec(
            c0,
            c1,
            caller,
            escrow_id,
            rx,
        ) || finalize_completion_spec(c0, c1, escrow_id, rf) || finalize_cancellation_spec(
            c0,
            c1,
            escrow_id,
            rg,
        ),
    ensures
        forall|id: EscrowId| #[trigger] c0.escrows().contains_key(id) ==> {
            &&& c1.escrows().contains_key(id)
            &&& c1.escrows()[id].buyer == c0.escrows()[id].buyer
            &&& c1.escrows()[id].seller == c0.escrows()[id].seller
            &&& c1.escrows()[id].amount == c0.escrows()[id].amount
        },
{
}

} // verus!
