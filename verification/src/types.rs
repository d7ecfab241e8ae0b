//! Data model of the escrow ledger: identifiers, records, errors, events,
//! and the fund movements requested from the hosting environment.

use vstd::prelude::*;

verus! {

/// Unique identifier of an escrow record, assigned by a monotonically
/// increasing counter starting at 0 and never reused.
pub type EscrowId = u64;

/// A non-negative quantity of the custodied asset.
pub type Balance = u128;

/// An opaque 256-bit account identifier, held as two machine words.
/// The ledger only ever compares accounts for equality.
#[derive(Clone, Copy, PartialEq, Eq, Structural, Debug)]
pub struct AccountId {
    /// The high 128 bits of the identifier.
    pub hi: u128,
    /// The low 128 bits of the identifier.
    pub lo: u128,
}

/// The possible states of an escrow record.
#[derive(Clone, Copy, PartialEq, Eq, Structural, Debug)]
pub enum EscrowState {
    /// The escrow has been created but no funds have been deposited.
    Created,
    /// The buyer has deposited the agreed amount into custody.
    Funded,
    /// Both parties have approved and the funds have moved to the seller.
    Completed,
    /// The escrow has been canceled; any custodied funds went back to the buyer.
    Canceled,
}

/// The possible errors of the escrow operations.
#[derive(Clone, Copy, PartialEq, Eq, Structural, Debug)]
pub enum Error {
    /// The caller is not a permitted party for the requested action.
    Unauthorized,
    /// The operation is not valid for the record's current state.
    InvalidState,
    /// The attached value differs from the agreed amount.
    InvalidAmount,
    /// The party has already approved the transaction.
    AlreadyApproved,
    /// The buyer and the seller are the same account.
    InvalidParticipants,
    /// The environment rejected the requested fund movement.
    TransferFailed,
    /// No record exists for the given id.
    NotFound,
    /// The escrow id counter is exhausted.
    IdOverflow,
}

/// One escrow record: a negotiated transfer between a buyer and a seller.
#[derive(Clone, Copy, PartialEq, Eq, Structural, Debug)]
pub struct Escrow {
    /// The account of the buyer; fixed at creation.
    pub buyer: AccountId,
    /// The account of the seller; fixed at creation.
    pub seller: AccountId,
    /// The agreed amount; fixed at creation.
    pub amount: Balance,
    /// Whether the buyer has approved the release; set at most once.
    pub buyer_approved: bool,
    /// Whether the seller has approved the release; set at most once.
    pub seller_approved: bool,
    /// The current state of the escrow.
    pub state: EscrowState,
}

impl Escrow {
    /// The record written by a successful initiation.
    pub open spec fn initial(buyer: AccountId, seller: AccountId, amount: Balance) -> Escrow {
        Escrow {
            buyer,
            seller,
            amount,
            buyer_approved: false,
            seller_approved: false,
            state: EscrowState::Created,
        }
    }

    /// Well-formedness of a stored record: distinct parties, no approval
    /// before funding, and completion only with both approvals.
    pub open spec fn wf(self) -> bool {
        &&& self.buyer != self.seller
        &&& self.state == EscrowState::Created ==> !self.buyer_approved && !self.seller_approved
        &&& self.state == EscrowState::Completed ==> self.buyer_approved && self.seller_approved
    }
}

/// A fund movement demanded from, or confirmed by, the hosting environment:
/// `amount` units leave the contract's custody toward `to`.
#[derive(Clone, Copy, PartialEq, Eq, Structural, Debug)]
pub struct FundMovement {
    /// The escrow record the movement settles.
    pub escrow_id: EscrowId,
    /// The account the funds move to.
    pub to: AccountId,
    /// The amount moved.
    pub amount: Balance,
}

/// Event emitted when a new escrow is initiated.
#[derive(Clone, Copy, PartialEq, Eq, Structural, Debug)]
pub struct Initiated {
    /// The id of the newly created escrow.
    pub escrow_id: EscrowId,
    /// The buyer's account.
    pub buyer: AccountId,
    /// The seller's account.
    pub seller: AccountId,
    /// The agreed amount.
    pub amount: Balance,
}

/// Event emitted when funds are deposited into an escrow.
#[derive(Clone, Copy, PartialEq, Eq, Structural, Debug)]
pub struct Deposited {
    /// The id of the escrow.
    pub escrow_id: EscrowId,
    /// The deposited amount.
    pub amount: Balance,
}

/// Event emitted when an escrow is completed.
#[derive(Clone, Copy, PartialEq, Eq, Structural, Debug)]
pub struct Completed {
    /// The id of the completed escrow.
    pub escrow_id: EscrowId,
}

/// Event emitted when an escrow is canceled.
#[derive(Clone, Copy, PartialEq, Eq, Structural, Debug)]
pub struct Canceled {
    /// The id of the canceled escrow.
    pub escrow_id: EscrowId,
}

/// One emitted domain event.
#[derive(Clone, Copy, PartialEq, Eq, Structural, Debug)]
pub enum Event {
    /// A new escrow was initiated.
    Initiated(Initiated),
    /// An escrow was funded.
    Deposited(Deposited),
    /// An escrow was completed.
    Completed(Completed),
    /// An escrow was canceled.
    Canceled(Canceled),
}

} // verus!
