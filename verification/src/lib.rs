//! A ledger for streaming payments.
//!
//! A sender locks a deposit in a stream; the recipient can claim it; the
//! sender can add to it, or cancel it and have it split by the time that has
//! passed. An administrator can stop new deposits in an emergency, which
//! never stops a recipient from withdrawing.
//!
//! The ledger decides and keeps the books. It does not move value, prove
//! identities, read a clock or publish anything itself: it is told the time
//! and who is calling, and it lists the transfers and notifications that
//! follow from each operation for its surroundings to carry out.
//!
//! - [`StreamContract`] holds the operations, each with its contract.
//! - [`Ledger`] is the state they work on; [`LedgerState`] is that state as a
//!   mathematical value, on which each operation is defined as a function.
//! - [`laws`] proves what holds of every ledger: ids are handed out in
//!   order, no stream is overdrawn, custody never pays out more than it took
//!   in, an ended stream stays ended, and who may do what.

pub mod accounting;
pub mod address;
pub mod contract;
pub mod error;
pub mod events;
pub mod history;
pub mod keys;
pub mod laws;
pub mod ledger;
pub mod math;
pub mod model;
pub mod stream;

pub use address::{Address, AddressKind};
pub use error::StreamError;
pub use keys::DataKey;
pub use stream::{Settlement, Stream};
pub use events::{
    EmergencyStopToggledEvent, Event, StreamCancelledEvent, StreamCreatedEvent,
    StreamToppedUpEvent, TokensWithdrawnEvent, Transfer,
};
pub use model::LedgerState;
pub use ledger::Ledger;
pub use contract::StreamContract;
pub use history::Operation;
