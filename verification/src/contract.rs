//! The operations of the streaming ledger.
//!
//! Every operation reads the ledger, checks everything it has to check, and
//! only then changes anything: an operation that is refused leaves the
//! ledger exactly as it was. The caller named in an operation (`sender`,
//! `recipient`, `admin`) is the party that has proved its identity for this
//! call; proving it is not the ledger's business. Transfers are ordered, not
//! carried out: they are appended to the ledger's list of transfers, and
//! notifications to its list of events.

use vstd::prelude::*;
use crate::address::Address;
use crate::error::StreamError;
use crate::events::{
    EmergencyStopToggledEvent, Event, StreamCancelledEvent, StreamCreatedEvent,
    StreamToppedUpEvent, TokensWithdrawnEvent, Transfer,
};
use crate::keys::DataKey;
use crate::ledger::Ledger;
use crate::model::LedgerState;
use crate::stream::Stream;

verus! {

/// The streaming ledger's operations, each on a ledger handed in.
pub struct StreamContract;

impl StreamContract {
    /// Creates a stream from `sender` to `recipient` that pays in
    /// `token_address`, funded with `amount` and vesting over `duration`.
    ///
    /// It is refused with `EmergencyStopEnabled` while the emergency stop is
    /// on, and otherwise with `InvalidAmount` unless both `amount` and
    /// `duration` are positive. On success the stream gets the id after the
    /// last one handed out, starting at 1, and is recorded as active with
    /// nothing withdrawn and a rate of `amount / duration`, rounded down. The
    /// deposit is ordered from the sender into custody, and the creation is
    /// published.
    ///
    /// The only ledger on which it cannot be called is one whose counter has
    /// reached the largest id.
    pub fn create_stream(
        ledger: &mut Ledger,
        sender: Address,
        recipient: Address,
        token_address: Address,
        amount: i128,
        duration: u64,
    ) -> (result: Result<u64, StreamError>)
        requires
            old(ledger).wf(),
            old(ledger)@.create_stream_result(amount, duration) is Ok ==> old(ledger)@.counter()
                < u64::MAX,
        ensures
            result == old(ledger)@.create_stream_result(amount, duration),
            final(ledger)@ == old(ledger)@.after_create_stream(
                sender,
                recipient,
                token_address,
                amount,
                duration,
            ),
            final(ledger).wf(),
            result is Err ==> final(ledger)@ == old(ledger)@,
            old(ledger)@.is_emergency_mode() ==> result == Err::<u64, StreamError>(
                StreamError::EmergencyStopEnabled,
            ),
            result matches Ok(stream_id) ==> {
                &&& stream_id == old(ledger)@.counter() + 1
                &&& final(ledger)@.counter() == stream_id
                &&& !old(ledger)@.streams.contains_key(stream_id)
                &&& final(ledger)@.streams.contains_key(stream_id)
                &&& final(ledger)@.streams[stream_id].is_active
                &&& final(ledger)@.streams[stream_id].deposited_amount == amount
                &&& final(ledger)@.streams[stream_id].withdrawn_amount == 0
            },
    {
        if Self::is_emergency_mode(ledger) {
            return Err(StreamError::EmergencyStopEnabled);
        }
        if amount <= 0 || duration == 0 {
            return Err(StreamError::InvalidAmount);
        }
        let stream_id: u64 = Self::get_next_stream_id(ledger);
        let start_time: u64 = ledger.timestamp();
        let custody = ledger.contract_address();
        let stream = Stream::open(sender, recipient, token_address, amount, duration, start_time);
        ledger.order(Transfer { stream_id, token_address, from: sender, to: custody, amount });
        ledger.put_stream(stream_id, stream);
        ledger.publish(
            Event::StreamCreated(
                StreamCreatedEvent {
                    stream_id,
                    sender,
                    recipient,
                    rate: stream.rate_per_second,
                    token_address,
                    start_time,
                },
            ),
        );
        assert(ledger@ =~= old(ledger)@.after_create_stream(
            sender,
            recipient,
            token_address,
            amount,
            duration,
        ));
        Ok(stream_id)
    }

    /// Hands out the next stream id: one more than the count kept so far,
    /// and 1 if no count is kept yet. The new count is kept.
    fn get_next_stream_id(ledger: &mut Ledger) -> (next_id: u64)
        requires
            old(ledger)@.counter() < u64::MAX,
        ensures
            next_id == old(ledger)@.counter() + 1,
            final(ledger)@ == (LedgerState { stream_counter: Some(next_id), ..old(ledger)@ }),
    {
        let counter: u64 = match ledger.stream_counter() {
            Some(count) => count,
            None => 0,
        };
        let next_id: u64 = counter + 1;
        ledger.set_stream_counter(next_id);
        next_id
    }

    /// Whether the emergency stop is on. It is off on a ledger on which it
    /// was never set.
    pub fn is_emergency_mode(ledger: &Ledger) -> (enabled: bool)
        ensures
            enabled == ledger@.is_emergency_mode(),
    {
        match ledger.emergency_stop() {
            Some(enabled) => enabled,
            None => false,
        }
    }

    /// Pays the recipient everything that is left of the stream's deposit,
    /// which ends the stream.
    ///
    /// It is refused, in this order: with `StreamNotFound` if no stream is
    /// recorded under `stream_id`, with `Unauthorized` if `recipient` is not
    /// the stream's recipient, with `StreamInactive` if the stream has ended,
    /// and with `InvalidAmount` if nothing is left to claim. The emergency
    /// stop does not hold a withdrawal back. On success the whole deposit
    /// counts as withdrawn, the payment is ordered from custody to the
    /// recipient and published, and the amount paid is returned.
    pub fn withdraw(ledger: &mut Ledger, recipient: Address, stream_id: u64) -> (result: Result<
        i128,
        StreamError,
    >)
        requires
            old(ledger).wf(),
        ensures
            result == old(ledger)@.withdraw_result(recipient, stream_id),
            final(ledger)@ == old(ledger)@.after_withdraw(recipient, stream_id),
            final(ledger).wf(),
            result is Err ==> final(ledger)@ == old(ledger)@,
            old(ledger)@.streams.contains_key(stream_id) ==> ({
                let before = old(ledger)@.streams[stream_id];
                &&& before.recipient != recipient ==> result == Err::<i128, StreamError>(
                    StreamError::Unauthorized,
                )
                &&& before.recipient == recipient && !before.is_active ==> result == Err::<
                    i128,
                    StreamError,
                >(StreamError::StreamInactive)
                &&& before.recipient == recipient && before.is_active
                    && before.withdrawn_amount < before.deposited_amount ==> result is Ok
            }),
            result matches Ok(amount) ==> ({
                let before = old(ledger)@.streams[stream_id];
                let after = final(ledger)@.streams[stream_id];
                &&& amount > 0
                &&& amount == before.deposited_amount - before.withdrawn_amount
                &&& !after.is_active
                &&& after.withdrawn_amount == after.deposited_amount
            }),
    {
        let mut stream: Stream = match ledger.stream(stream_id) {
            Some(stream) => stream,
            None => {
                return Err(StreamError::StreamNotFound);
            },
        };
        if stream.recipient != recipient {
            return Err(StreamError::Unauthorized);
        }
        if !stream.is_active {
            return Err(StreamError::StreamInactive);
        }
        let claimable: i128 = stream.deposited_amount - stream.withdrawn_amount;
        if claimable <= 0 {
            return Err(StreamError::InvalidAmount);
        }
        let custody = ledger.contract_address();
        ledger.order(
            Transfer {
                stream_id,
                token_address: stream.token_address,
                from: custody,
                to: recipient,
                amount: claimable,
            },
        );
        stream.withdrawn_amount = stream.withdrawn_amount + claimable;
        stream.last_update_time = ledger.timestamp();
        if stream.withdrawn_amount >= stream.deposited_amount {
            stream.is_active = false;
        }
        ledger.put_stream(stream_id, stream);
        ledger.publish(
            Event::TokensWithdrawn(
                TokensWithdrawnEvent {
                    stream_id,
                    recipient,
                    amount: claimable,
                    timestamp: stream.last_update_time,
                },
            ),
        );
        assert(ledger@ =~= old(ledger)@.after_withdraw(recipient, stream_id));
        Ok(claimable)
    }

    /// Adds `amount` to the deposit of a stream. The rate stays as it was.
    ///
    /// It is refused, in this order: with `EmergencyStopEnabled` while the
    /// emergency stop is on, with `InvalidAmount` unless `amount` is
    /// positive, with `StreamNotFound` if no stream is recorded under
    /// `stream_id`, with `Unauthorized` if `sender` is not the stream's
    /// sender, and with `StreamInactive` if the stream has ended. On success
    /// the amount is ordered from the sender into custody and the new
    /// deposit is published.
    ///
    /// The only top-up that cannot be asked for is one that would take the
    /// deposit beyond the largest amount.
    pub fn top_up_stream(
        ledger: &mut Ledger,
        sender: Address,
        stream_id: u64,
        amount: i128,
    ) -> (result: Result<(), StreamError>)
        requires
            old(ledger).wf(),
            old(ledger)@.top_up_stream_result(sender, stream_id, amount) is Ok ==> old(
                ledger)@.streams[stream_id].deposited_amount + amount <= i128::MAX,
        ensures
            result == old(ledger)@.top_up_stream_result(sender, stream_id, amount),
            final(ledger)@ == old(ledger)@.after_top_up_stream(sender, stream_id, amount),
            final(ledger).wf(),
            result is Err ==> final(ledger)@ == old(ledger)@,
            old(ledger)@.is_emergency_mode() ==> result == Err::<(), StreamError>(
                StreamError::EmergencyStopEnabled,
            ),
            !old(ledger)@.is_emergency_mode() && amount > 0 && old(ledger)@.streams.contains_key(
                stream_id,
            ) ==> ({
                let before = old(ledger)@.streams[stream_id];
                &&& before.sender != sender ==> result == Err::<(), StreamError>(
                    StreamError::Unauthorized,
                )
                &&& before.sender == sender && !before.is_active ==> result == Err::<
                    (),
                    StreamError,
                >(StreamError::StreamInactive)
                &&& before.sender == sender && before.is_active ==> result is Ok
            }),
            result is Ok ==> ({
                let before = old(ledger)@.streams[stream_id];
                let after = final(ledger)@.streams[stream_id];
                &&& after.deposited_amount == before.deposited_amount + amount
                &&& after.rate_per_second == before.rate_per_second
                &&& after.is_active
            }),
    {
        if Self::is_emergency_mode(ledger) {
            return Err(StreamError::EmergencyStopEnabled);
        }
        if amount <= 0 {
            return Err(StreamError::InvalidAmount);
        }
        let mut stream: Stream = match ledger.stream(stream_id) {
            Some(stream) => stream,
            None => {
                return Err(StreamError::StreamNotFound);
            },
        };
        if stream.sender != sender {
            return Err(StreamError::Unauthorized);
        }
        if !stream.is_active {
            return Err(StreamError::StreamInactive);
        }
        let custody = ledger.contract_address();
        ledger.order(
            Transfer {
                stream_id,
                token_address: stream.token_address,
                from: sender,
                to: custody,
                amount,
            },
        );
        stream.deposited_amount = stream.deposited_amount + amount;
        stream.last_update_time = ledger.timestamp();
        ledger.put_stream(stream_id, stream);
        ledger.publish(
            Event::StreamToppedUp(
                StreamToppedUpEvent {
                    stream_id,
                    sender,
                    amount,
                    new_deposited_amount: stream.deposited_amount,
                },
            ),
        );
        assert(ledger@ =~= old(ledger)@.after_top_up_stream(sender, stream_id, amount));
        Ok(())
    }

    /// Ends a stream before its time and splits it between the two parties
    /// by the time that has passed.
    ///
    /// It is refused, in this order: with `StreamNotFound` if no stream is
    /// recorded under `stream_id`, with `Unauthorized` if `sender` is not the
    /// stream's sender, and with `StreamInactive` if the stream has ended.
    /// The emergency stop does not hold a cancellation back. On success the
    /// record is kept, inactive; the vested part is ordered from custody to
    /// the recipient and the remainder to the sender, each only if it is
    /// more than nothing; and the split is published.
    pub fn cancel_stream(ledger: &mut Ledger, sender: Address, stream_id: u64) -> (result: Result<
        (),
        StreamError,
    >)
        requires
            old(ledger).wf(),
        ensures
            result == old(ledger)@.cancel_stream_result(sender, stream_id),
            final(ledger)@ == old(ledger)@.after_cancel_stream(sender, stream_id),
            final(ledger).wf(),
            result is Err ==> final(ledger)@ == old(ledger)@,
            old(ledger)@.streams.contains_key(stream_id) ==> ({
                let before = old(ledger)@.streams[stream_id];
                &&& before.sender != sender ==> result == Err::<(), StreamError>(
                    StreamError::Unauthorized,
                )
                &&& before.sender == sender && !before.is_active ==> result == Err::<
                    (),
                    StreamError,
                >(StreamError::StreamInactive)
                &&& before.sender == sender && before.is_active ==> result is Ok
            }),
            result is Ok ==> ({
                let before = old(ledger)@.streams[stream_id];
                let after = final(ledger)@.streams[stream_id];
                &&& !after.is_active
                &&& after.withdrawn_amount == before.withdrawn_amount
                &&& after.deposited_amount == before.deposited_amount
            }),
    {
        let mut stream: Stream = match ledger.stream(stream_id) {
            Some(stream) => stream,
            None => {
                return Err(StreamError::StreamNotFound);
            },
        };
        if stream.sender != sender {
            return Err(StreamError::Unauthorized);
        }
        if !stream.is_active {
            return Err(StreamError::StreamInactive);
        }
        let now: u64 = ledger.timestamp();
        let custody = ledger.contract_address();
        let split = stream.settlement(now);
        if split.vested > 0 {
            ledger.order(
                Transfer {
                    stream_id,
                    token_address: stream.token_address,
                    from: custody,
                    to: stream.recipient,
                    amount: split.vested,
                },
            );
        }
        if split.remainder > 0 {
            ledger.order(
                Transfer {
                    stream_id,
                    token_address: stream.token_address,
                    from: custody,
                    to: stream.sender,
                    amount: split.remainder,
                },
            );
        }
        let amount_withdrawn: i128 = stream.withdrawn_amount;
        let recipient = stream.recipient;
        stream.is_active = false;
        stream.last_update_time = now;
        ledger.put_stream(stream_id, stream);
        ledger.publish(
            Event::StreamCancelled(
                StreamCancelledEvent {
                    stream_id,
                    sender,
                    recipient,
                    amount_withdrawn,
                    vested_amount: split.vested,
                    refunded_amount: split.remainder,
                },
            ),
        );
        assert(ledger@ =~= old(ledger)@.after_cancel_stream(sender, stream_id));
        Ok(())
    }

    /// Switches the emergency stop on or off.
    ///
    /// It is refused with `Unauthorized` if no administrator is registered,
    /// and with `NotAdmin` if `admin` is not the registered one. On success
    /// the flag is recorded and the switch is published.
    pub fn set_emergency_mode(
        ledger: &mut Ledger,
        admin: Address,
        enabled: bool,
    ) -> (result: Result<(), StreamError>)
        requires
            old(ledger).wf(),
        ensures
            result == old(ledger)@.set_emergency_mode_result(admin),
            final(ledger)@ == old(ledger)@.after_set_emergency_mode(admin, enabled),
            final(ledger).wf(),
            result is Err ==> final(ledger)@ == old(ledger)@,
            result is Err ==> final(ledger)@.is_emergency_mode() == old(
                ledger)@.is_emergency_mode(),
            result is Ok ==> final(ledger)@.is_emergency_mode() == enabled,
            old(ledger)@.admin matches Some(registered) && registered != admin ==> result == Err::<
                (),
                StreamError,
            >(StreamError::NotAdmin),
    {
        let stored_admin: Address = match ledger.admin() {
            Some(registered) => registered,
            None => {
                return Err(StreamError::Unauthorized);
            },
        };
        if admin != stored_admin {
            return Err(StreamError::NotAdmin);
        }
        ledger.set_emergency_stop(enabled);
        ledger.publish(Event::EmergencyStopToggled(EmergencyStopToggledEvent { enabled, admin }));
        assert(ledger@ =~= old(ledger)@.after_set_emergency_mode(admin, enabled));
        Ok(())
    }

    /// Registers the administrator. It can be done once: it is refused with
    /// `AlreadyInitialized` if an administrator is on record.
    pub fn initialize(ledger: &mut Ledger, admin: Address) -> (result: Result<(), StreamError>)
        requires
            old(ledger).wf(),
        ensures
            result == old(ledger)@.initialize_result(),
            final(ledger)@ == old(ledger)@.after_initialize(admin),
            final(ledger).wf(),
            result is Err ==> final(ledger)@ == old(ledger)@,
            result is Ok <==> old(ledger)@.admin is None,
            result is Ok ==> final(ledger)@.admin == Some(admin),
    {
        if ledger.has(&DataKey::Admin) {
            return Err(StreamError::AlreadyInitialized);
        }
        ledger.set_admin(admin);
        assert(ledger@ =~= old(ledger)@.after_initialize(admin));
        Ok(())
    }

    /// The record of the stream `stream_id`, or nothing if none is kept. The
    /// record of a stream that has ended is kept.
    pub fn get_stream(ledger: &Ledger, stream_id: u64) -> (record: Option<Stream>)
        ensures
            record == (if ledger@.streams.contains_key(stream_id) {
                Some(ledger@.streams[stream_id])
            } else {
                None
            }),
            ledger.wf() ==> (record matches Some(stream) ==> stream.wf()),
    {
        ledger.stream(stream_id)
    }

    /// Whether `create_stream` can be called with these arguments: it cannot
    /// only where it would succeed and the counter has reached the largest
    /// id.
    pub fn create_stream_fits(ledger: &Ledger, amount: i128, duration: u64) -> (fits: bool)
        ensures
            fits == (ledger@.create_stream_result(amount, duration) is Ok ==> ledger@.counter()
                < u64::MAX),
    {
        if Self::is_emergency_mode(ledger) || amount <= 0 || duration == 0 {
            return true;
        }
        match ledger.stream_counter() {
            Some(count) => count < u64::MAX,
            None => true,
        }
    }

    /// Whether `top_up_stream` can be called with these arguments: it cannot
    /// only where it would succeed and the deposit would grow beyond the
    /// largest amount.
    pub fn top_up_stream_fits(
        ledger: &Ledger,
        sender: Address,
        stream_id: u64,
        amount: i128,
    ) -> (fits: bool)
        ensures
            fits == (ledger@.top_up_stream_result(sender, stream_id, amount) is Ok
                ==> ledger@.streams[stream_id].deposited_amount + amount <= i128::MAX),
    {
        if Self::is_emergency_mode(ledger) || amount <= 0 {
            return true;
        }
        match ledger.stream(stream_id) {
            None => true,
            Some(stream) => {
                if stream.sender != sender || !stream.is_active {
                    true
                } else {
                    stream.deposited_amount <= i128::MAX - amount
                }
            },
        }
    }
}

} // verus!
