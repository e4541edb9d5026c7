//! What the ledger tells the world: the notifications it publishes and the
//! transfers of value it orders.

use vstd::prelude::*;
use crate::address::Address;

verus! {

/// A stream was created.
#[derive(Clone, Copy, Debug, PartialEq, Eq)]
pub struct StreamCreatedEvent {
    pub stream_id: u64,
    pub sender: Address,
    pub recipient: Address,
    pub rate: i128,
    pub token_address: Address,
    pub start_time: u64,
}

/// A stream was cancelled by its sender and split between the two parties.
#[derive(Clone, Copy, Debug, PartialEq, Eq)]
pub struct StreamCancelledEvent {
    pub stream_id: u64,
    pub sender: Address,
    pub recipient: Address,
    /// What the recipient had withdrawn before the cancellation.
    pub amount_withdrawn: i128,
    /// What the cancellation paid to the recipient.
    pub vested_amount: i128,
    /// What the cancellation returned to the sender.
    pub refunded_amount: i128,
}

/// The recipient withdrew from a stream.
#[derive(Clone, Copy, Debug, PartialEq, Eq)]
pub struct TokensWithdrawnEvent {
    pub stream_id: u64,
    pub recipient: Address,
    pub amount: i128,
    pub timestamp: u64,
}

/// The sender added to the deposit of a stream.
#[derive(Clone, Copy, Debug, PartialEq, Eq)]
pub struct StreamToppedUpEvent {
    pub stream_id: u64,
    pub sender: Address,
    pub amount: i128,
    /// The whole deposit after the top-up.
    pub new_deposited_amount: i128,
}

/// The administrator switched the emergency stop.
#[derive(Clone, Copy, Debug, PartialEq, Eq)]
pub struct EmergencyStopToggledEvent {
    pub enabled: bool,
    pub admin: Address,
}

/// One notification, as the ledger publishes it.
#[derive(Clone, Copy, Debug, PartialEq, Eq)]
pub enum Event {
    StreamCreated(StreamCreatedEvent),
    StreamCancelled(StreamCancelledEvent),
    TokensWithdrawn(TokensWithdrawnEvent),
    StreamToppedUp(StreamToppedUpEvent),
    EmergencyStopToggled(EmergencyStopToggledEvent),
}

impl Event {
    /// The topic under which the notification is published.
    pub open spec fn spec_topic(self) -> Seq<char> {
        match self {
            Event::StreamCreated(_) => "stream_created"@,
            Event::StreamCancelled(_) => "stream_cancelled"@,
            Event::TokensWithdrawn(_) => "tokens_withdrawn"@,
            Event::StreamToppedUp(_) => "stream_topped_up"@,
            Event::EmergencyStopToggled(_) => "emergency_stop_toggled"@,
        }
    }

    /// The topic under which the notification is published.
    pub fn topic(&self) -> (topic: &'static str)
        ensures
            topic@ == self.spec_topic(),
    {
        match self {
            Event::StreamCreated(_) => "stream_created",
            Event::StreamCancelled(_) => "stream_cancelled",
            Event::TokensWithdrawn(_) => "tokens_withdrawn",
            Event::StreamToppedUp(_) => "stream_topped_up",
            Event::EmergencyStopToggled(_) => "emergency_stop_toggled",
        }
    }

    /// The stream that the notification is about, if it is about one.
    pub open spec fn spec_stream_id(self) -> Option<u64> {
        match self {
            Event::StreamCreated(e) => Some(e.stream_id),
            Event::StreamCancelled(e) => Some(e.stream_id),
            Event::TokensWithdrawn(e) => Some(e.stream_id),
            Event::StreamToppedUp(e) => Some(e.stream_id),
            Event::EmergencyStopToggled(_) => None,
        }
    }

    /// The stream that the notification is about, if it is about one. It is
    /// published as the second part of the topic.
    pub fn stream_id(&self) -> (id: Option<u64>)
        ensures
            id == self.spec_stream_id(),
    {
        match self {
            Event::StreamCreated(e) => Some(e.stream_id),
            Event::StreamCancelled(e) => Some(e.stream_id),
            Event::TokensWithdrawn(e) => Some(e.stream_id),
            Event::StreamToppedUp(e) => Some(e.stream_id),
            Event::EmergencyStopToggled(_) => None,
        }
    }
}

/// An order to move `amount` of the asset `token_address` from one party to
/// another on behalf of a stream. The ledger's own address stands for what
/// it holds in custody.
#[derive(Clone, Copy, Debug, PartialEq, Eq)]
pub struct Transfer {
    pub stream_id: u64,
    pub token_address: Address,
    pub from: Address,
    pub to: Address,
    pub amount: i128,
}

} // verus!
