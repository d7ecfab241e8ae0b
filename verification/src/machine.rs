//! The escrow state machine: initiate, deposit, approve/complete and cancel,
//! operating on one record of the [`crate::store::EscrowStore`] at a time.
//!
//! Every operation takes the caller's identity (and, for deposits, the value
//! attached to the call) as plain arguments supplied by the hosting
//! environment. A transition that demands a fund movement does not perform
//! it: it hands a [`FundMovement`] back to the host, which performs the
//! movement and then reports it done through `finalize_completion` or
//! `finalize_cancellation`. Until the host reports back, the record keeps a
//! state from which the operation can be retried.
//!
//! The exact effect of each operation — which inputs succeed, which error
//! each rejected input earns, and how the stored records, the fund-movement
//! log and the event log change — is captured by one transition predicate
//! per operation (`initiate_spec`, `deposit_spec`, ...), and each operation
//! ensures exactly its predicate.

use vstd::prelude::*;
use crate::store::EscrowStore;
use crate::types::AccountId;
use crate::types::Balance;
use crate::types::Canceled;
use crate::types::Completed;
use crate::types::Deposited;
use crate::types::Error;
use crate::types::Escrow;
use crate::types::EscrowId;
use crate::types::EscrowState;
use crate::types::Event;
use crate::types::FundMovement;
use crate::types::Initiated;

verus! {

/// The escrow ledger: the record store together with the logs of the fund
/// movements settled so far and of the events emitted so far.
pub struct EscrowSmartContract {
    /// The record store with its id allocator.
    pub store: EscrowStore,
    /// Every fund movement settled so far, oldest first. A movement enters
    /// this log when the hosting environment confirms it done.
    pub transfers: Vec<FundMovement>,
    /// Every event emitted so far, oldest first.
    pub events: Vec<Event>,
}

impl EscrowSmartContract {
    /// The stored records, as a map from id to record.
    pub open spec fn escrows(self) -> Map<EscrowId, Escrow> {
        self.store.records@
    }

    /// The id the allocator will hand out next.
    pub open spec fn next_id(self) -> EscrowId {
        self.store.next_id
    }

    /// The fund movements settled so far, oldest first.
    pub open spec fn transfer_log(self) -> Seq<FundMovement> {
        self.transfers@
    }

    /// The events emitted so far, oldest first.
    pub open spec fn event_log(self) -> Seq<Event> {
        self.events@
    }

    /// Well-formedness: every stored record is well formed and sits below
    /// the allocator's counter, so the counter never hands out a live id.
    pub open spec fn wf(self) -> bool {
        forall|id: EscrowId| #[trigger] self.escrows().contains_key(id)
            ==> self.escrows()[id].wf() && id < self.next_id()
    }
}

/// No observable change: records, allocator and both logs are as before.
pub open spec fn unchanged(pre: EscrowSmartContract, post: EscrowSmartContract) -> bool {
    &&& post.escrows() == pre.escrows()
    &&& post.next_id() == pre.next_id()
    &&& post.transfer_log() == pre.transfer_log()
    &&& post.event_log() == pre.event_log()
}

/// The transition of `initiate_escrow`: with distinct parties and a free id,
/// a fresh `Created` record is stored under the old counter value, the
/// counter increments, and an `Initiated` event is emitted; a rejected
/// initiation changes nothing and consumes no id.
pub open spec fn initiate_spec(
    pre: EscrowSmartContract,
    post: EscrowSmartContract,
    caller: AccountId,
    seller: AccountId,
    amount: Balance,
    r: Result<EscrowId, Error>,
) -> bool {
    if caller == seller {
        r == Err::<EscrowId, Error>(Error::InvalidParticipants) && unchanged(pre, post)
    } else if pre.next_id() == u64::MAX {
        r == Err::<EscrowId, Error>(Error::IdOverflow) && unchanged(pre, post)
    } else {
        let id = pre.next_id();
        &&& r == Ok::<EscrowId, Error>(id)
        &&& post.escrows() == pre.escrows().insert(id, Escrow::initial(caller, seller, amount))
        &&& post.next_id() == id + 1
        &&& post.transfer_log() == pre.transfer_log()
        &&& post.event_log() == pre.event_log().push(
            Event::Initiated(Initiated { escrow_id: id, buyer: caller, seller, amount }),
        )
    }
}

/// The transition of `deposit_assets`: the buyer of an existing `Created`
/// record, attaching exactly the agreed amount, moves it to `Funded` and a
/// `Deposited` event is emitted; any rejected call changes nothing, earning
/// `NotFound`, `Unauthorized`, `InvalidState` or `InvalidAmount`, checked in
/// that order.
pub open spec fn deposit_spec(
    pre: EscrowSmartContract,
    post: EscrowSmartContract,
    caller: AccountId,
    escrow_id: EscrowId,
    attached_value: Balance,
    r: Result<(), Error>,
) -> bool {
    if !pre.escrows().contains_key(escrow_id) {
        r == Err::<(), Error>(Error::NotFound) && unchanged(pre, post)
    } else {
        let e = pre.escrows()[escrow_id];
        if caller != e.buyer {
            r == Err::<(), Error>(Error::Unauthorized) && unchanged(pre, post)
        } else if e.state != EscrowState::Created {
            r == Err::<(), Error>(Error::InvalidState) && unchanged(pre, post)
        } else if attached_value != e.amount {
            r == Err::<(), Error>(Error::InvalidAmount) && unchanged(pre, post)
        } else {
            &&& r == Ok::<(), Error>(())
            &&& post.escrows() == pre.escrows().insert(
                escrow_id,
                Escrow { state: EscrowState::Funded, ..e },
            )
            &&& post.next_id() == pre.next_id()
            &&& post.transfer_log() == pre.transfer_log()
            &&& post.event_log() == pre.event_log().push(
                Event::Deposited(Deposited { escrow_id, amount: e.amount }),
            )
        }
    }
}

/// The persisted approval and the result of a successful `complete_escrow`
/// call: the record becomes `updated`, nothing else changes, and the call
/// returns the demanded release movement exactly when both parties have now
/// approved.
pub open spec fn complete_ok(
    pre: EscrowSmartContract,
    post: EscrowSmartContract,
    escrow_id: EscrowId,
    updated: Escrow,
    r: Result<Option<FundMovement>, Error>,
) -> bool {
    &&& post.escrows() == pre.escrows().insert(escrow_id, updated)
    &&& post.next_id() == pre.next_id()
    &&& post.transfer_log() == pre.transfer_log()
    &&& post.event_log() == pre.event_log()
    &&& r == Ok::<Option<FundMovement>, Error>(
        if updated.buyer_approved && updated.seller_approved {
            Some(FundMovement { escrow_id, to: updated.seller, amount: updated.amount })
        } else {
            None
        },
    )
}

/// The transition of `complete_escrow`: on an existing `Funded` record, the
/// calling party's not-yet-set approval flag is set and persisted; once both
/// flags are set the call demands the release of the full amount to the
/// seller from the host. Rejections — `NotFound`, `InvalidState` for records
/// not `Funded`, `AlreadyApproved` for a repeated approval, `Unauthorized`
/// for a caller that is neither party, checked in that order — change
/// nothing.
pub open spec fn complete_spec(
    pre: EscrowSmartContract,
    post: EscrowSmartContract,
    caller: AccountId,
    escrow_id: EscrowId,
    r: Result<Option<FundMovement>, Error>,
) -> bool {
    if !pre.escrows().contains_key(escrow_id) {
        r == Err::<Option<FundMovement>, Error>(Error::NotFound) && unchanged(pre, post)
    } else {
        let e = pre.escrows()[escrow_id];
        if e.state != EscrowState::Funded {
            r == Err::<Option<FundMovement>, Error>(Error::InvalidState) && unchanged(pre, post)
        } else if caller == e.buyer {
            if e.buyer_approved {
                r == Err::<Option<FundMovement>, Error>(Error::AlreadyApproved) && unchanged(
                    pre,
                    post,
                )
            } else {
                complete_ok(pre, post, escrow_id, (Escrow { buyer_approved: true, ..e }), r)
            }
        } else if caller == e.seller {
            if e.seller_approved {
                r == Err::<Option<FundMovement>, Error>(Error::AlreadyApproved) && unchanged(
                    pre,
                    post,
                )
            } else {
                complete_ok(pre, post, escrow_id, (Escrow { seller_approved: true, ..e }), r)
            }
        } else {
            r == Err::<Option<FundMovement>, Error>(Error::Unauthorized) && unchanged(pre, post)
        }
    }
}

/// The transition of `finalize_completion`: once the host has moved the full
/// amount to the seller of an existing, fully approved `Funded` record, the
/// record becomes `Completed`, the movement enters the fund-movement log and
/// a `Completed` event is emitted. On any other record the call earns
/// `NotFound` or `InvalidState` and changes nothing.
pub open spec fn finalize_completion_spec(
    pre: EscrowSmartContract,
    post: EscrowSmartContract,
    escrow_id: EscrowId,
    r: Result<(), Error>,
) -> bool {
    if !pre.escrows().contains_key(escrow_id) {
        r == Err::<(), Error>(Error::NotFound) && unchanged(pre, post)
    } else {
        let e = pre.escrows()[escrow_id];
        if e.state != EscrowState::Funded || !e.buyer_approved || !e.seller_approved {
            r == Err::<(), Error>(Error::InvalidState) && unchanged(pre, post)
        } else {
            &&& r == Ok::<(), Error>(())
            &&& post.escrows() == pre.escrows().insert(
                escrow_id,
                Escrow { state: EscrowState::Completed, ..e },
            )
            &&& post.next_id() == pre.next_id()
            &&& post.transfer_log() == pre.transfer_log().push(
                FundMovement { escrow_id, to: e.seller, amount: e.amount },
            )
            &&& post.event_log() == pre.event_log().push(
                Event::Completed(Completed { escrow_id }),
            )
        }
    }
}

/// The transition of `cancel_escrow`: either party may cancel a record that
/// is not `Completed`. A `Funded` record stays untouched while the call
/// demands the refund of the full amount to the buyer from the host — the
/// record changes only once the host reports the refund done, so a failed
/// refund can be retried. Any other cancelable record becomes `Canceled`
/// directly, with no fund movement, and a `Canceled` event is emitted.
/// Rejections — `NotFound`, `Unauthorized` for a caller that is neither
/// party, `InvalidState` for a `Completed` record, checked in that order —
/// change nothing. Canceling an already `Canceled` record is not blocked:
/// it re-emits the event and leaves the record as it is.
pub open spec fn cancel_spec(
    pre: EscrowSmartContract,
    post: EscrowSmartContract,
    caller: AccountId,
    escrow_id: EscrowId,
    r: Result<Option<FundMovement>, Error>,
) -> bool {
    if !pre.escrows().contains_key(escrow_id) {
        r == Err::<Option<FundMovement>, Error>(Error::NotFound) && unchanged(pre, post)
    } else {
        let e = pre.escrows()[escrow_id];
        if caller != e.buyer && caller != e.seller {
            r == Err::<Option<FundMovement>, Error>(Error::Unauthorized) && unchanged(pre, post)
        } else if e.state == EscrowState::Completed {
            r == Err::<Option<FundMovement>, Error>(Error::InvalidState) && unchanged(pre, post)
        } else if e.state == EscrowState::Funded {
            r == Ok::<Option<FundMovement>, Error>(
                Some(FundMovement { escrow_id, to: e.buyer, amount: e.amount }),
            ) && unchanged(pre, post)
        } else {
            &&& r == Ok::<Option<FundMovement>, Error>(None)
            &&& post.escrows() == pre.escrows().insert(
                escrow_id,
                Escrow { state: EscrowState::Canceled, ..e },
            )
            &&& post.next_id() == pre.next_id()
            &&& post.transfer_log() == pre.transfer_log()
            &&& post.event_log() == pre.event_log().push(
                Event::Canceled(Canceled { escrow_id }),
            )
        }
    }
}

/// The transition of `finalize_cancellation`: once the host has refunded the
/// full amount of an existing `Funded` record to the buyer, the record
/// becomes `Canceled`, the refund enters the fund-movement log and a
/// `Canceled` event is emitted. On any other record the call earns
/// `NotFound` or `InvalidState` and changes nothing.
pub open spec fn finalize_cancellation_spec(
    pre: EscrowSmartContract,
    post: EscrowSmartContract,
    escrow_id: EscrowId,
    r: Result<(), Error>,
) -> bool {
    if !pre.escrows().contains_key(escrow_id) {
        r == Err::<(), Error>(Error::NotFound) && unchanged(pre, post)
    } else {
        let e = pre.escrows()[escrow_id];
        if e.state != EscrowState::Funded {
            r == Err::<(), Error>(Error::InvalidState) && unchanged(pre, post)
        } else {
            &&& r == Ok::<(), Error>(())
            &&& post.escrows() == pre.escrows().insert(
                escrow_id,
                Escrow { state: EscrowState::Canceled, ..e },
            )
            &&& post.next_id() == pre.next_id()
            &&& post.transfer_log() == pre.transfer_log().push(
                FundMovement { escrow_id, to: e.buyer, amount: e.amount },
            )
            &&& post.event_log() == pre.event_log().push(
                Event::Canceled(Canceled { escrow_id }),
            )
        }
    }
}

impl EscrowSmartContract {
    /// A fresh ledger: no records, no settled movements, no events, and an
    /// id allocator starting at 0.
    pub fn new() -> (c: EscrowSmartContract)
        ensures
            c.escrows() == Map::<EscrowId, Escrow>::empty(),
            c.next_id() == 0,
            c.transfer_log() == Seq::<FundMovement>::empty(),
            c.event_log() == Seq::<Event>::empty(),
            c.wf(),
    {
        EscrowSmartContract { store: EscrowStore::new(), transfers: Vec::new(), events: Vec::new() }
    }

    /// Initiates a new escrow: the caller becomes the buyer of a fresh
    /// `Created` record with the given seller and amount, and receives the
    /// record's id. No fund movement occurs.
    pub fn initiate_escrow(
        &mut self,
        caller: AccountId,
        seller: AccountId,
        amount: Balance,
    ) -> (r: Result<EscrowId, Error>)
        requires
            old(self).wf(),
        ensures
            final(self).wf(),
            initiate_spec(*old(self), *final(self), caller, seller, amount, r),
    {
        if caller == seller {
            return Err(Error::InvalidParticipants);
        }
        let escrow_id = match self.store.allocate_id() {
            Ok(id) => id,
            Err(e) => {
                return Err(e);
            },
        };
        let escrow = Escrow {
            buyer: caller,
            seller,
            amount,
            buyer_approved: false,
            seller_approved: false,
            state: EscrowState::Created,
        };
        self.store.put(escrow_id, escrow);
        self.events.push(Event::Initiated(Initiated { escrow_id, buyer: caller, seller, amount }));
        proof {
            assert forall|id: EscrowId| #[trigger] final(self).escrows().contains_key(id)
                implies final(self).escrows()[id].wf() && id < final(self).next_id() by {
                if id != escrow_id {
                    assert(old(self).escrows().contains_key(id));
                }
            }
        }
        Ok(escrow_id)
    }

    /// Deposits the attached value into an escrow the caller is the buyer
    /// of, moving the record from `Created` to `Funded`. The attached value
    /// must equal the agreed amount; custody of it passes to the contract
    /// atomically with the call, and on any rejection the environment
    /// returns it to the caller in full.
    pub fn deposit_assets(
        &mut self,
        caller: AccountId,
        escrow_id: EscrowId,
        attached_value: Balance,
    ) -> (r: Result<(), Error>)
        requires
            old(self).wf(),
        ensures
            final(self).wf(),
            deposit_spec(*old(self), *final(self), caller, escrow_id, attached_value, r),
    {
        let mut escrow = match self.store.get(escrow_id) {
            Some(e) => e,
            None => {
                return Err(Error::NotFound);
            },
        };
        if caller != escrow.buyer {
            return Err(Error::Unauthorized);
        }
        if escrow.state != EscrowState::Created {
            return Err(Error::InvalidState);
        }
        if attached_value != escrow.amount {
            return Err(Error::InvalidAmount);
        }
        escrow.state = EscrowState::Funded;
        self.store.put(escrow_id, escrow);
        self.events.push(Event::Deposited(Deposited { escrow_id, amount: escrow.amount }));
        proof {
            assert forall|id: EscrowId| #[trigger] final(self).escrows().contains_key(id)
                implies final(self).escrows()[id].wf() && id < final(self).next_id() by {
                if id == escrow_id {
                    assert(old(self).escrows().contains_key(escrow_id));
                } else {
                    assert(old(self).escrows().contains_key(id));
                }
            }
        }
        Ok(())
    }

    /// Sets the calling party's approval flag on a copy of the record, or
    /// rejects the call: a repeated approval earns `AlreadyApproved`, a
    /// caller that is neither party earns `Unauthorized`. The buyer is
    /// matched before the seller.
    fn approve(escrow: Escrow, caller: AccountId) -> (r: Result<Escrow, Error>)
        ensures
            r == (if caller == escrow.buyer {
                if escrow.buyer_approved {
                    Err::<Escrow, Error>(Error::AlreadyApproved)
                } else {
                    Ok::<Escrow, Error>(Escrow { buyer_approved: true, ..escrow })
                }
            } else if caller == escrow.seller {
                if escrow.seller_approved {
                    Err::<Escrow, Error>(Error::AlreadyApproved)
                } else {
                    Ok::<Escrow, Error>(Escrow { seller_approved: true, ..escrow })
                }
            } else {
                Err::<Escrow, Error>(Error::Unauthorized)
            }),
    {
        let mut escrow = escrow;
        if caller == escrow.buyer {
            if escrow.buyer_approved {
                return Err(Error::AlreadyApproved);
            }
            escrow.buyer_approved = true;
        } else if caller == escrow.seller {
            if escrow.seller_approved {
                return Err(Error::AlreadyApproved);
            }
            escrow.seller_approved = true;
        } else {
            return Err(Error::Unauthorized);
        }
        Ok(escrow)
    }

    /// Records the calling party's approval of an existing `Funded` escrow
    /// and persists it. Once both parties have approved, the call returns
    /// the fund movement the host must now perform — the full amount to the
    /// seller; the host reports the movement done through
    /// [`Self::finalize_completion`]. With only one approval set the call
    /// returns no movement and the record stays `Funded`.
    ///
    /// The approval is persisted before the release movement settles. Should
    /// the host's movement fail, the record therefore keeps both approval
    /// flags while staying `Funded`: a retried approval earns
    /// `AlreadyApproved`, and the record settles only once the movement is
    /// retried (or the escrow is canceled). This is a deliberate,
    /// documented reconciliation hazard.
    pub fn complete_escrow(&mut self, caller: AccountId, escrow_id: EscrowId) -> (r: Result<
        Option<FundMovement>,
        Error,
    >)
        requires
            old(self).wf(),
        ensures
            final(self).wf(),
            complete_spec(*old(self), *final(self), caller, escrow_id, r),
    {
        let escrow = match self.store.get(escrow_id) {
            Some(e) => e,
            None => {
                return Err(Error::NotFound);
            },
        };
        if escrow.state != EscrowState::Funded {
            return Err(Error::InvalidState);
        }
        let escrow = match Self::approve(escrow, caller) {
            Ok(e) => e,
            Err(err) => {
                return Err(err);
            },
        };
        self.store.put(escrow_id, escrow);
        proof {
            assert forall|id: EscrowId| #[trigger] final(self).escrows().contains_key(id)
                implies final(self).escrows()[id].wf() && id < final(self).next_id() by {
                if id == escrow_id {
                    assert(old(self).escrows().contains_key(escrow_id));
                } else {
                    assert(old(self).escrows().contains_key(id));
                }
            }
        }
        if escrow.buyer_approved && escrow.seller_approved {
            Ok(Some(FundMovement { escrow_id, to: escrow.seller, amount: escrow.amount }))
        } else {
            Ok(None)
        }
    }

    /// Settles a fully approved `Funded` escrow after the host has moved the
    /// full amount to the seller: the record becomes `Completed` — a
    /// terminal state — the movement is logged, and a `Completed` event is
    /// emitted.
    pub fn finalize_completion(&mut self, escrow_id: EscrowId) -> (r: Result<(), Error>)
        requires
            old(self).wf(),
        ensures
            final(self).wf(),
            finalize_completion_spec(*old(self), *final(self), escrow_id, r),
    {
        let mut escrow = match self.store.get(escrow_id) {
            Some(e) => e,
            None => {
                return Err(Error::NotFound);
            },
        };
        if escrow.state != EscrowState::Funded || !escrow.buyer_approved
            || !escrow.seller_approved {
            return Err(Error::InvalidState);
        }
        escrow.state = EscrowState::Completed;
        self.store.put(escrow_id, escrow);
        self.transfers.push(FundMovement { escrow_id, to: escrow.seller, amount: escrow.amount });
        self.events.push(Event::Completed(Completed { escrow_id }));
        proof {
            assert forall|id: EscrowId| #[trigger] final(self).escrows().contains_key(id)
                implies final(self).escrows()[id].wf() && id < final(self).next_id() by {
                if id == escrow_id {
                    assert(old(self).escrows().contains_key(escrow_id));
                } else {
                    assert(old(self).escrows().contains_key(id));
                }
            }
        }
        Ok(())
    }

    /// Cancels an escrow on behalf of either party. A record that never was
    /// funded — or was already canceled — becomes `Canceled` directly, with
    /// no fund movement. For a `Funded` record the call instead returns the
    /// refund movement the host must perform — the full amount back to the
    /// buyer — and leaves the record `Funded` until the host reports the
    /// refund done through [`Self::finalize_cancellation`], so a failed
    /// refund can simply be retried. A `Completed` record cannot be
    /// canceled.
    pub fn cancel_escrow(&mut self, caller: AccountId, escrow_id: EscrowId) -> (r: Result<
        Option<FundMovement>,
        Error,
    >)
        requires
            old(self).wf(),
        ensures
            final(self).wf(),
            cancel_spec(*old(self), *final(self), caller, escrow_id, r),
    {
        let mut escrow = match self.store.get(escrow_id) {
            Some(e) => e,
            None => {
                return Err(Error::NotFound);
            },
        };
        if caller != escrow.buyer && caller != escrow.seller {
            return Err(Error::Unauthorized);
        }
        if escrow.state == EscrowState::Completed {
            return Err(Error::InvalidState);
        }
        if escrow.state == EscrowState::Funded {
            return Ok(Some(FundMovement { escrow_id, to: escrow.buyer, amount: escrow.amount }));
        }
        escrow.state = EscrowState::Canceled;
        self.store.put(escrow_id, escrow);
        self.events.push(Event::Canceled(Canceled { escrow_id }));
        proof {
            assert forall|id: EscrowId| #[trigger] final(self).escrows().contains_key(id)
                implies final(self).escrows()[id].wf() && id < final(self).next_id() by {
                if id == escrow_id {
                    assert(old(self).escrows().contains_key(escrow_id));
                } else {
                    assert(old(self).escrows().contains_key(id));
                }
            }
        }
        Ok(None)
    }

    /// Settles the cancellation of a `Funded` escrow after the host has
    /// refunded the full amount to the buyer: the record becomes `Canceled`
    /// — a terminal state — the refund is logged, and a `Canceled` event is
    /// emitted.
    pub fn finalize_cancellation(&mut self, escrow_id: EscrowId) -> (r: Result<(), Error>)
        requires
            old(self).wf(),
        ensures
            final(self).wf(),
            finalize_cancellation_spec(*old(self), *final(self), escrow_id, r),
    {
        let mut escrow = match self.store.get(escrow_id) {
            Some(e) => e,
            None => {
                return Err(Error::NotFound);
            },
        };
        if escrow.state != EscrowState::Funded {
            return Err(Error::InvalidState);
        }
        escrow.state = EscrowState::Canceled;
        self.store.put(escrow_id, escrow);
        self.transfers.push(FundMovement { escrow_id, to: escrow.buyer, amount: escrow.amount });
        self.events.push(Event::Canceled(Canceled { escrow_id }));
        proof {
            assert forall|id: EscrowId| #[trigger] final(self).escrows().contains_key(id)
                implies final(self).escrows()[id].wf() && id < final(self).next_id() by {
                if id == escrow_id {
                    assert(old(self).escrows().contains_key(escrow_id));
                } else {
                    assert(old(self).escrows().contains_key(id));
                }
            }
        }
        Ok(())
    }

    /// Pure lookup of a record by id, available to any caller: returns a
    /// copy of the record, or nothing for an id no record exists under.
    /// Side-effect free.
    pub fn get_escrow(&self, escrow_id: EscrowId) -> (r: Option<Escrow>)
        ensures
            r == (if self.escrows().contains_key(escrow_id) {
                Some(self.escrows()[escrow_id])
            } else {
                None::<Escrow>
            }),
    {
        self.store.get(escrow_id)
    }
}

impl Default for EscrowSmartContract {
    /// Same as [`EscrowSmartContract::new`]: a fresh, empty ledger.
    fn default() -> (c: EscrowSmartContract)
        ensures
            c.escrows() == Map::<EscrowId, Escrow>::empty(),
            c.next_id() == 0,
            c.transfer_log() == Seq::<FundMovement>::empty(),
            c.event_log() == Seq::<Event>::empty(),
            c.wf(),
    {
        EscrowSmartContract::new()
    }
}

} // verus!
