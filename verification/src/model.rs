//! The ledger as a mathematical value, and each operation as a function from
//! the state before to the result and the state after.
//!
//! The executable operations are specified against these functions, and the
//! laws of the ledger are proved about them.

use vstd::prelude::*;
use crate::address::Address;
use crate::error::StreamError;
use crate::events::{
    EmergencyStopToggledEvent, Event, StreamCancelledEvent, StreamCreatedEvent,
    StreamToppedUpEvent, TokensWithdrawnEvent, Transfer,
};
use crate::stream::Stream;

verus! {

/// Everything the ledger knows at one moment.
#[verifier::ext_equal]
pub struct LedgerState {
    /// The ledger's own address, under which it holds deposits in custody.
    pub contract_address: Address,
    /// The latest reading of the clock.
    pub timestamp: u64,
    /// The registered administrator, if there is one.
    pub admin: Option<Address>,
    /// The emergency-stop flag, if it was ever set.
    pub emergency_stop: Option<bool>,
    /// The number of streams created so far, if one was ever created.
    pub stream_counter: Option<u64>,
    /// The stream records by id.
    pub streams: Map<u64, Stream>,
    /// Every transfer ordered so far, oldest first.
    pub transfers: Seq<Transfer>,
    /// Every notification published so far, oldest first.
    pub events: Seq<Event>,
}

impl LedgerState {
    /// A ledger on which nothing has happened yet.
    pub open spec fn fresh(contract_address: Address) -> LedgerState {
        LedgerState {
            contract_address,
            timestamp: 0,
            admin: None,
            emergency_stop: None,
            stream_counter: None,
            streams: Map::empty(),
            transfers: Seq::empty(),
            events: Seq::empty(),
        }
    }

    /// The number of streams created so far: zero while no counter is kept.
    pub open spec fn counter(self) -> u64 {
        match self.stream_counter {
            Some(count) => count,
            None => 0,
        }
    }

    /// Whether the emergency stop is on. It is off until it is set.
    pub open spec fn is_emergency_mode(self) -> bool {
        self.emergency_stop == Some(true)
    }

    /// The invariant of the ledger: every stream has an id that the counter
    /// has handed out, satisfies the invariant of a stream, and was last
    /// changed no later than the clock now reads.
    pub open spec fn wf(self) -> bool {
        forall|id: u64| #[trigger]
            self.streams.contains_key(id) ==> {
                &&& 1 <= id <= self.counter()
                &&& self.streams[id].wf()
                &&& self.streams[id].last_update_time <= self.timestamp
            }
    }

    /// The clock never runs backwards: a reading earlier than the latest is
    /// ignored.
    pub open spec fn after_advance_time(self, now: u64) -> LedgerState {
        LedgerState { timestamp: if now >= self.timestamp { now } else { self.timestamp }, ..self }
    }

    /// `initialize` is refused once an administrator is on record.
    pub open spec fn initialize_result(self) -> Result<(), StreamError> {
        if self.admin is Some {
            Err(StreamError::AlreadyInitialized)
        } else {
            Ok(())
        }
    }

    /// `initialize` registers the administrator.
    pub open spec fn after_initialize(self, admin: Address) -> LedgerState {
        if self.initialize_result() is Ok {
            LedgerState { admin: Some(admin), ..self }
        } else {
            self
        }
    }

    /// `set_emergency_mode` is reserved for the registered administrator.
    pub open spec fn set_emergency_mode_result(self, admin: Address) -> Result<(), StreamError> {
        match self.admin {
            None => Err(StreamError::Unauthorized),
            Some(registered) => if registered != admin {
                Err(StreamError::NotAdmin)
            } else {
                Ok(())
            },
        }
    }

    /// `set_emergency_mode` records the flag and publishes the switch.
    pub open spec fn after_set_emergency_mode(self, admin: Address, enabled: bool) -> LedgerState {
        if self.set_emergency_mode_result(admin) is Ok {
            LedgerState {
                emergency_stop: Some(enabled),
                events: self.events.push(
                    Event::EmergencyStopToggled(EmergencyStopToggledEvent { enabled, admin }),
                ),
                ..self
            }
        } else {
            self
        }
    }

    /// `create_stream` is refused while the emergency stop is on, and then
    /// for a non-positive amount or a zero duration. Otherwise it returns
    /// the next id.
    pub open spec fn create_stream_result(self, amount: i128, duration: u64) -> Result<
        u64,
        StreamError,
    > {
        if self.is_emergency_mode() {
            Err(StreamError::EmergencyStopEnabled)
        } else if amount <= 0 || duration == 0 {
            Err(StreamError::InvalidAmount)
        } else {
            Ok((self.counter() + 1) as u64)
        }
    }

    /// `create_stream` counts the stream, records it as opened now, orders
    /// the deposit into custody and publishes the creation.
    pub open spec fn after_create_stream(
        self,
        sender: Address,
        recipient: Address,
        token_address: Address,
        amount: i128,
        duration: u64,
    ) -> LedgerState {
        match self.create_stream_result(amount, duration) {
            Err(_) => self,
            Ok(stream_id) => {
                let stream = Stream::spec_open(
                    sender,
                    recipient,
                    token_address,
                    amount,
                    duration,
                    self.timestamp,
                );
                LedgerState {
                    stream_counter: Some(stream_id),
                    streams: self.streams.insert(stream_id, stream),
                    transfers: self.transfers.push(
                        Transfer {
                            stream_id,
                            token_address,
                            from: sender,
                            to: self.contract_address,
                            amount,
                        },
                    ),
                    events: self.events.push(
                        Event::StreamCreated(
                            StreamCreatedEvent {
                                stream_id,
                                sender,
                                recipient,
                                rate: stream.rate_per_second,
                                token_address,
                                start_time: self.timestamp,
                            },
                        ),
                    ),
                    ..self
                }
            },
        }
    }

    /// `top_up_stream` is refused, in this order: while the emergency stop
    /// is on, for a non-positive amount, for an unknown stream, for a caller
    /// who is not the sender, and for an inactive stream.
    pub open spec fn top_up_stream_result(
        self,
        sender: Address,
        stream_id: u64,
        amount: i128,
    ) -> Result<(), StreamError> {
        if self.is_emergency_mode() {
            Err(StreamError::EmergencyStopEnabled)
        } else if amount <= 0 {
            Err(StreamError::InvalidAmount)
        } else if !self.streams.contains_key(stream_id) {
            Err(StreamError::StreamNotFound)
        } else if self.streams[stream_id].sender != sender {
            Err(StreamError::Unauthorized)
        } else if !self.streams[stream_id].is_active {
            Err(StreamError::StreamInactive)
        } else {
            Ok(())
        }
    }

    /// `top_up_stream` adds to the deposit, leaves the rate as it is, orders
    /// the amount into custody and publishes the new deposit.
    pub open spec fn after_top_up_stream(
        self,
        sender: Address,
        stream_id: u64,
        amount: i128,
    ) -> LedgerState {
        if self.top_up_stream_result(sender, stream_id, amount) is Ok {
            let stream = self.streams[stream_id];
            let deposited = (stream.deposited_amount + amount) as i128;
            LedgerState {
                streams: self.streams.insert(
                    stream_id,
                    Stream {
                        deposited_amount: deposited,
                        last_update_time: self.timestamp,
                        ..stream
                    },
                ),
                transfers: self.transfers.push(
                    Transfer {
                        stream_id,
                        token_address: stream.token_address,
                        from: sender,
                        to: self.contract_address,
                        amount,
                    },
                ),
                events: self.events.push(
                    Event::StreamToppedUp(
                        StreamToppedUpEvent {
                            stream_id,
                            sender,
                            amount,
                            new_deposited_amount: deposited,
                        },
                    ),
                ),
                ..self
            }
        } else {
            self
        }
    }

    /// `withdraw` is refused, in this order: for an unknown stream, for a
    /// caller who is not the recipient, for an inactive stream, and when
    /// nothing is left to claim. Otherwise it returns everything that is
    /// left of the deposit. The emergency stop plays no part.
    pub open spec fn withdraw_result(self, recipient: Address, stream_id: u64) -> Result<
        i128,
        StreamError,
    > {
        if !self.streams.contains_key(stream_id) {
            Err(StreamError::StreamNotFound)
        } else if self.streams[stream_id].recipient != recipient {
            Err(StreamError::Unauthorized)
        } else if !self.streams[stream_id].is_active {
            Err(StreamError::StreamInactive)
        } else if self.streams[stream_id].claimable() <= 0 {
            Err(StreamError::InvalidAmount)
        } else {
            Ok(self.streams[stream_id].claimable() as i128)
        }
    }

    /// `withdraw` drains the stream, which ends it, orders the payment to
    /// the recipient and publishes it.
    pub open spec fn after_withdraw(self, recipient: Address, stream_id: u64) -> LedgerState {
        match self.withdraw_result(recipient, stream_id) {
            Err(_) => self,
            Ok(amount) => {
                let stream = self.streams[stream_id];
                LedgerState {
                    streams: self.streams.insert(
                        stream_id,
                        Stream {
                            withdrawn_amount: stream.deposited_amount,
                            last_update_time: self.timestamp,
                            is_active: false,
                            ..stream
                        },
                    ),
                    transfers: self.transfers.push(
                        Transfer {
                            stream_id,
                            token_address: stream.token_address,
                            from: self.contract_address,
                            to: recipient,
                            amount,
                        },
                    ),
                    events: self.events.push(
                        Event::TokensWithdrawn(
                            TokensWithdrawnEvent {
                                stream_id,
                                recipient,
                                amount,
                                timestamp: self.timestamp,
                            },
                        ),
                    ),
                    ..self
                }
            },
        }
    }

    /// `cancel_stream` is refused, in this order: for an unknown stream, for
    /// a caller who is not the sender, and for an inactive stream. The
    /// emergency stop plays no part.
    pub open spec fn cancel_stream_result(self, sender: Address, stream_id: u64) -> Result<
        (),
        StreamError,
    > {
        if !self.streams.contains_key(stream_id) {
            Err(StreamError::StreamNotFound)
        } else if self.streams[stream_id].sender != sender {
            Err(StreamError::Unauthorized)
        } else if !self.streams[stream_id].is_active {
            Err(StreamError::StreamInactive)
        } else {
            Ok(())
        }
    }

    /// The transfers that settle the stream `stream_id` at the present time:
    /// the vested part to the recipient, then the remainder to the sender,
    /// each only if it is more than nothing.
    pub open spec fn settlement_transfers(self, stream_id: u64) -> Seq<Transfer> {
        let stream = self.streams[stream_id];
        let vested = stream.vested(self.timestamp);
        let remainder = stream.remainder(self.timestamp);
        let to_recipient = Transfer {
            stream_id,
            token_address: stream.token_address,
            from: self.contract_address,
            to: stream.recipient,
            amount: vested as i128,
        };
        let to_sender = Transfer {
            stream_id,
            token_address: stream.token_address,
            from: self.contract_address,
            to: stream.sender,
            amount: remainder as i128,
        };
        (if vested > 0 {
            seq![to_recipient]
        } else {
            Seq::empty()
        }) + (if remainder > 0 {
            seq![to_sender]
        } else {
            Seq::empty()
        })
    }

    /// `cancel_stream` ends the stream, keeps its record, orders the
    /// settlement and publishes the split.
    pub open spec fn after_cancel_stream(self, sender: Address, stream_id: u64) -> LedgerState {
        if self.cancel_stream_result(sender, stream_id) is Ok {
            let stream = self.streams[stream_id];
            LedgerState {
                streams: self.streams.insert(
                    stream_id,
                    Stream { last_update_time: self.timestamp, is_active: false, ..stream },
                ),
                transfers: self.transfers + self.settlement_transfers(stream_id),
                events: self.events.push(
                    Event::StreamCancelled(
                        StreamCancelledEvent {
                            stream_id,
                            sender,
                            recipient: stream.recipient,
                            amount_withdrawn: stream.withdrawn_amount,
                            vested_amount: stream.vested(self.timestamp) as i128,
                            refunded_amount: stream.remainder(self.timestamp) as i128,
                        },
                    ),
                ),
                ..self
            }
        } else {
            self
        }
    }
}

} // verus!
