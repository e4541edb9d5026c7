//! The ledger's store: the records it keeps, the clock it reads, and the
//! transfers and notifications it has handed out.

use std::collections::HashMap;
use vstd::prelude::*;
use crate::address::Address;
use crate::events::{Event, Transfer};
use crate::keys::DataKey;
use crate::model::LedgerState;
use crate::stream::Stream;

verus! {

broadcast use vstd::std_specs::hash::group_hash_axioms;

/// The state of one ledger. Independent ledgers share nothing.
///
/// A ledger holds the stream records, the stream counter, the registered
/// administrator and the emergency-stop flag, each of which may be absent.
/// It also holds the latest reading of the clock, and lists of the transfers
/// it has ordered and the notifications it has published, for whoever
/// carries them out.
#[derive(Debug)]
pub struct Ledger {
    contract_address: Address,
    timestamp: u64,
    admin: Option<Address>,
    emergency_stop: Option<bool>,
    stream_counter: Option<u64>,
    streams: HashMap<u64, Stream>,
    transfers: Vec<Transfer>,
    events: Vec<Event>,
}

impl View for Ledger {
    type V = LedgerState;

    closed spec fn view(&self) -> LedgerState {
        LedgerState {
            contract_address: self.contract_address,
            timestamp: self.timestamp,
            admin: self.admin,
            emergency_stop: self.emergency_stop,
            stream_counter: self.stream_counter,
            streams: self.streams@,
            transfers: self.transfers@,
            events: self.events@,
        }
    }
}

impl Ledger {
    /// The invariant of the ledger, which every operation keeps.
    pub open spec fn wf(&self) -> bool {
        self@.wf()
    }

    /// A ledger on which nothing has happened yet: no administrator, no
    /// emergency flag, no counter, no stream, the clock at zero.
    pub fn new(contract_address: Address) -> (ledger: Ledger)
        ensures
            ledger@ == LedgerState::fresh(contract_address),
            ledger.wf(),
    {
        Ledger {
            contract_address,
            timestamp: 0,
            admin: None,
            emergency_stop: None,
            stream_counter: None,
            streams: HashMap::new(),
            transfers: Vec::new(),
            events: Vec::new(),
        }
    }

    /// A ledger that takes up what was kept in durable storage: the clock,
    /// the administrator, the emergency flag and the counter. It holds no
    /// stream yet, and has ordered and published nothing.
    pub fn restore(
        contract_address: Address,
        timestamp: u64,
        admin: Option<Address>,
        emergency_stop: Option<bool>,
        stream_counter: Option<u64>,
    ) -> (ledger: Ledger)
        ensures
            ledger@ == (LedgerState {
                timestamp,
                admin,
                emergency_stop,
                stream_counter,
                ..LedgerState::fresh(contract_address)
            }),
            ledger.wf(),
    {
        Ledger {
            contract_address,
            timestamp,
            admin,
            emergency_stop,
            stream_counter,
            streams: HashMap::new(),
            transfers: Vec::new(),
            events: Vec::new(),
        }
    }

    /// Whether `stream` may be kept under `stream_id` in the state `state`
    /// without breaking the invariant of the ledger.
    pub open spec fn admits(state: LedgerState, stream_id: u64, stream: Stream) -> bool {
        &&& 1 <= stream_id <= state.counter()
        &&& stream.wf()
        &&& stream.last_update_time <= state.timestamp
    }

    /// Takes up a stream record that was kept in durable storage, replacing
    /// the record under that id if there is one. A record that would break
    /// the invariant of the ledger is turned away, and the ledger is left as
    /// it was.
    pub fn restore_stream(&mut self, stream_id: u64, stream: Stream) -> (restored: bool)
        requires
            old(self).wf(),
        ensures
            restored == Ledger::admits(old(self)@, stream_id, stream),
            restored ==> final(self)@ == (LedgerState {
                streams: old(self)@.streams.insert(stream_id, stream),
                ..old(self)@
            }),
            !restored ==> final(self)@ == old(self)@,
            final(self).wf(),
    {
        let count: u64 = match self.stream_counter {
            Some(count) => count,
            None => 0,
        };
        if 1 <= stream_id && stream_id <= count && stream.is_well_formed()
            && stream.last_update_time <= self.timestamp {
            self.streams.insert(stream_id, stream);
            true
        } else {
            false
        }
    }

    /// Tells the ledger what the clock reads. A reading earlier than the
    /// latest is ignored: the ledger's time never runs backwards.
    pub fn advance_time(&mut self, now: u64)
        requires
            old(self).wf(),
        ensures
            final(self)@ == old(self)@.after_advance_time(now),
            final(self)@.timestamp >= old(self)@.timestamp,
            final(self)@.timestamp >= now,
            final(self).wf(),
    {
        if now >= self.timestamp {
            self.timestamp = now;
        }
    }

    /// The ledger's own address, under which it holds deposits in custody.
    pub fn contract_address(&self) -> (address: Address)
        ensures
            address == self@.contract_address,
    {
        self.contract_address
    }

    /// The latest reading of the clock.
    pub fn timestamp(&self) -> (now: u64)
        ensures
            now == self@.timestamp,
    {
        self.timestamp
    }

    /// The registered administrator, if there is one.
    pub fn admin(&self) -> (admin: Option<Address>)
        ensures
            admin == self@.admin,
    {
        self.admin
    }

    /// The emergency-stop flag as it is kept, absent until it is first set.
    pub fn emergency_stop(&self) -> (flag: Option<bool>)
        ensures
            flag == self@.emergency_stop,
    {
        self.emergency_stop
    }

    /// The stream counter as it is kept, absent until the first stream is
    /// created.
    pub fn stream_counter(&self) -> (count: Option<u64>)
        ensures
            count == self@.stream_counter,
    {
        self.stream_counter
    }

    /// The record kept under `stream_id`, if there is one.
    pub fn stream(&self, stream_id: u64) -> (record: Option<Stream>)
        ensures
            record == (if self@.streams.contains_key(stream_id) {
                Some(self@.streams[stream_id])
            } else {
                None
            }),
    {
        match self.streams.get(&stream_id) {
            Some(stream) => Some(*stream),
            None => None,
        }
    }

    /// Whether the state `state` keeps a record under `key`.
    pub open spec fn holds(state: LedgerState, key: DataKey) -> bool {
        match key {
            DataKey::Stream(stream_id) => state.streams.contains_key(stream_id),
            DataKey::StreamCounter => state.stream_counter is Some,
            DataKey::Admin => state.admin is Some,
            DataKey::EmergencyStop => state.emergency_stop is Some,
        }
    }

    /// Whether a record is kept under `key`.
    pub fn has(&self, key: &DataKey) -> (present: bool)
        ensures
            present == Ledger::holds(self@, *key),
    {
        match key {
            DataKey::Stream(stream_id) => self.streams.contains_key(stream_id),
            DataKey::StreamCounter => self.stream_counter.is_some(),
            DataKey::Admin => self.admin.is_some(),
            DataKey::EmergencyStop => self.emergency_stop.is_some(),
        }
    }

    /// Every transfer the ledger has ordered, oldest first.
    pub fn transfers(&self) -> (transfers: &Vec<Transfer>)
        ensures
            transfers@ == self@.transfers,
    {
        &self.transfers
    }

    /// Every notification the ledger has published, oldest first.
    pub fn events(&self) -> (events: &Vec<Event>)
        ensures
            events@ == self@.events,
    {
        &self.events
    }

    /// Records the administrator.
    pub(crate) fn set_admin(&mut self, admin: Address)
        ensures
            final(self)@ == (LedgerState { admin: Some(admin), ..old(self)@ }),
    {
        self.admin = Some(admin);
    }

    /// Records the emergency-stop flag.
    pub(crate) fn set_emergency_stop(&mut self, enabled: bool)
        ensures
            final(self)@ == (LedgerState { emergency_stop: Some(enabled), ..old(self)@ }),
    {
        self.emergency_stop = Some(enabled);
    }

    /// Records the stream counter.
    pub(crate) fn set_stream_counter(&mut self, count: u64)
        ensures
            final(self)@ == (LedgerState { stream_counter: Some(count), ..old(self)@ }),
    {
        self.stream_counter = Some(count);
    }

    /// Keeps `stream` under `stream_id`.
    pub(crate) fn put_stream(&mut self, stream_id: u64, stream: Stream)
        ensures
            final(self)@ == (LedgerState {
                streams: old(self)@.streams.insert(stream_id, stream),
                ..old(self)@
            }),
    {
        self.streams.insert(stream_id, stream);
    }

    /// Orders a transfer.
    pub(crate) fn order(&mut self, transfer: Transfer)
        ensures
            final(self)@ == (LedgerState {
                transfers: old(self)@.transfers.push(transfer),
                ..old(self)@
            }),
    {
        self.transfers.push(transfer);
    }

    /// Publishes a notification.
    pub(crate) fn publish(&mut self, event: Event)
        ensures
            final(self)@ == (LedgerState { events: old(self)@.events.push(event), ..old(self)@ }),
    {
        self.events.push(event);
    }
}

} // verus!
