//! A verified two-party escrow ledger.
//!
//! A buyer and a seller agree on a transfer amount; the buyer deposits the
//! funds into neutral custody; the funds are released to the seller only once
//! both parties have approved, and are refundable to the buyer on
//! cancellation before completion.
//!
//! The crate holds the escrow record store with its monotonic id allocator
//! ([`store`]) and the escrow state machine ([`machine`]), together with the
//! data model ([`types`]) and the proved transition laws ([`laws`]).
//!
//! The hosting environment — the collaborator that supplies caller identity
//! and attached value and that actually moves funds — stays outside: every
//! operation takes the caller and any attached value as plain arguments, and
//! a transition that demands a fund movement hands the demanded movement back
//! to the host, which reports back once the movement is done.

pub mod laws;
pub mod machine;
pub mod store;
pub mod types;

pub use machine::EscrowSmartContract;
pub use store::EscrowStore;
pub use types::AccountId;
pub use types::Balance;
pub use types::Canceled;
pub use types::Completed;
pub use types::Deposited;
pub use types::Error;
pub use types::Escrow;
pub use types::EscrowId;
pub use types::EscrowState;
pub use types::Event;
pub use types::FundMovement;
pub use types::Initiated;
