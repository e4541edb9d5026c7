//! The laws of the ledger: what holds of every state it can reach and of
//! every operation on it.

use vstd::prelude::*;
use crate::accounting::{lemma_paid_concat, lemma_paid_push, paid_in, paid_out};
use crate::address::Address;
use crate::error::StreamError;
use crate::events::Transfer;
use crate::history::Operation;
use crate::math::lemma_prorate_bounds;
use crate::model::LedgerState;
use crate::stream::{elapsed_since, Stream};

verus! {

/// A cancellation never pays a negative amount to either party, and what it
/// pays, together with what was withdrawn before, is covered by the rate
/// allotment and so by the deposit.
pub proof fn lemma_settlement_is_covered(stream: Stream, now: u64)
    requires
        stream.wf(),
    ensures
        0 <= stream.vested_raw(now) <= stream.rate_per_second,
        0 <= stream.vested(now) <= stream.rate_per_second,
        0 <= stream.remainder(now) <= stream.rate_per_second,
        stream.vested(now) + stream.remainder(now) <= stream.claimable(),
        stream.withdrawn_amount + stream.vested(now) + stream.remainder(now)
            <= stream.deposited_amount,
{
    let elapsed = elapsed_since(stream.start_time, now);
    if elapsed < stream.duration {
        lemma_prorate_bounds(stream.rate_per_second as int, elapsed, stream.duration as int);
    }
}

/// Cancelling once the duration has passed gives the recipient the whole
/// rate allotment, less what was already withdrawn, and returns nothing to
/// the sender.
pub proof fn lemma_full_vesting_after_duration(stream: Stream, now: u64)
    requires
        stream.wf(),
        elapsed_since(stream.start_time, now) >= stream.duration,
    ensures
        stream.remainder(now) == 0,
        stream.withdrawn_amount <= stream.rate_per_second ==> stream.vested(now)
            == stream.rate_per_second - stream.withdrawn_amount,
        stream.withdrawn_amount > stream.rate_per_second ==> stream.vested(now) == 0,
        stream.withdrawn_amount == 0 ==> stream.vested(now) == stream.rate_per_second,
{
}

/// Every operation keeps the invariant of the ledger: no stream is ever
/// overdrawn. It also leaves the ledger's own address alone and never turns
/// the clock back.
pub proof fn lemma_step_keeps_invariant(state: LedgerState, op: Operation)
    requires
        state.wf(),
        state.fits(op),
    ensures
        state.step(op).wf(),
        state.step(op).contract_address == state.contract_address,
        state.step(op).timestamp >= state.timestamp,
        state.step(op).counter() >= state.counter(),
{
    let next = state.step(op);
    match op {
        Operation::CreateStream { sender, recipient, token_address, amount, duration } => {
            if state.create_stream_result(amount, duration) is Ok {
                assert(0 <= (amount as int) / (duration as int) <= amount) by (nonlinear_arith)
                    requires
                        0 < amount,
                        0 < duration,
                ;
            }
        },
        _ => {},
    }
    assert forall|id: u64| #[trigger] next.streams.contains_key(id) implies {
        &&& 1 <= id <= next.counter()
        &&& next.streams[id].wf()
        &&& next.streams[id].last_update_time <= next.timestamp
    } by {
        if state.streams.contains_key(id) {
            assert(state.streams[id].wf());
        }
    }
}

/// The invariant of the ledger holds after any number of operations: at all
/// times, for every stream, what was withdrawn is at most what was
/// deposited.
pub proof fn lemma_run_keeps_invariant(state: LedgerState, ops: Seq<Operation>)
    requires
        state.wf(),
        state.run_fits(ops),
    ensures
        state.run(ops).wf(),
        state.run(ops).contract_address == state.contract_address,
        state.run(ops).timestamp >= state.timestamp,
        state.run(ops).counter() >= state.counter(),
        forall|id: u64| #[trigger]
            state.run(ops).streams.contains_key(id) ==> 0 <= state.run(
                ops,
            ).streams[id].withdrawn_amount <= state.run(ops).streams[id].deposited_amount,
    decreases ops.len(),
{
    if ops.len() > 0 {
        lemma_run_keeps_invariant(state, ops.drop_last());
        lemma_step_keeps_invariant(state.run(ops.drop_last()), ops.last());
    }
}

/// Ids are handed out in order and without gaps or repeats: after any
/// operations, the ids handed out are the numbers that follow the count the
/// ledger started with, and the count has advanced by as many.
pub proof fn lemma_ids_are_sequential(state: LedgerState, ops: Seq<Operation>)
    requires
        state.run_fits(ops),
    ensures
        state.run(ops).counter() == state.counter() + state.ids_handed_out(ops).len(),
        forall|k: int|
            0 <= k < state.ids_handed_out(ops).len() ==> #[trigger] state.ids_handed_out(ops)[k]
                == state.counter() + 1 + k,
    decreases ops.len(),
{
    if ops.len() > 0 {
        lemma_ids_are_sequential(state, ops.drop_last());
    }
}

/// On a ledger that starts out fresh the ids handed out are 1, 2, 3 and so
/// on.
pub proof fn lemma_ids_count_from_one(contract_address: Address, ops: Seq<Operation>)
    requires
        LedgerState::fresh(contract_address).run_fits(ops),
    ensures
        forall|k: int|
            0 <= k < LedgerState::fresh(contract_address).ids_handed_out(ops).len()
                ==> #[trigger] LedgerState::fresh(contract_address).ids_handed_out(ops)[k] == k + 1,
{
    lemma_ids_are_sequential(LedgerState::fresh(contract_address), ops);
}

/// No operation lets custody pay out, for any stream, more than it took in
/// for it: what custody holds beyond its debts on a stream never shrinks.
/// This is stated of operations that are funded from outside; a stream that
/// the ledger funds from its own custody brings nothing in.
pub proof fn lemma_step_conserves(state: LedgerState, op: Operation, stream_id: u64)
    requires
        state.wf(),
        state.fits(op),
        op.funded_from_outside(state.contract_address),
    ensures
        state.step(op).surplus(stream_id) >= state.surplus(stream_id),
{
    let custody = state.contract_address;
    match op {
        Operation::CreateStream { sender, recipient, token_address, amount, duration } => {
            if let Ok(new_id) = state.create_stream_result(amount, duration) {
                let transfer = Transfer {
                    stream_id: new_id,
                    token_address,
                    from: sender,
                    to: custody,
                    amount,
                };
                lemma_paid_push(state.transfers, transfer, custody, stream_id);
                assert(!state.streams.contains_key(new_id));
            }
        },
        Operation::TopUpStream { sender, stream_id: target, amount } => {
            if state.top_up_stream_result(sender, target, amount) is Ok {
                let stream = state.streams[target];
                let transfer = Transfer {
                    stream_id: target,
                    token_address: stream.token_address,
                    from: sender,
                    to: custody,
                    amount,
                };
                lemma_paid_push(state.transfers, transfer, custody, stream_id);
            }
        },
        Operation::Withdraw { recipient, stream_id: target } => {
            if let Ok(amount) = state.withdraw_result(recipient, target) {
                let stream = state.streams[target];
                assert(stream.wf());
                let transfer = Transfer {
                    stream_id: target,
                    token_address: stream.token_address,
                    from: custody,
                    to: recipient,
                    amount,
                };
                lemma_paid_push(state.transfers, transfer, custody, stream_id);
            }
        },
        Operation::CancelStream { sender, stream_id: target } => {
            if state.cancel_stream_result(sender, target) is Ok {
                let stream = state.streams[target];
                assert(stream.wf());
                lemma_settlement_is_covered(stream, state.timestamp);
                let settlement = state.settlement_transfers(target);
                lemma_paid_concat(state.transfers, settlement, custody, stream_id);
                lemma_settlement_flows(state, target, stream_id);
            }
        },
        _ => {},
    }
}

/// What the settlement of the stream `target` takes out of custody for it is
/// the vested part and the remainder, and what it brings in is not negative.
/// For every other stream it moves nothing.
proof fn lemma_settlement_flows(state: LedgerState, target: u64, stream_id: u64)
    requires
        state.streams.contains_key(target),
        state.streams[target].wf(),
    ensures
        paid_in(state.settlement_transfers(target), state.contract_address, stream_id) >= 0,
        paid_out(state.settlement_transfers(target), state.contract_address, stream_id) == (if stream_id
            == target {
            state.streams[target].vested(state.timestamp) + state.streams[target].remainder(
                state.timestamp,
            )
        } else {
            0
        }),
{
    let stream = state.streams[target];
    let custody = state.contract_address;
    let now = state.timestamp;
    lemma_settlement_is_covered(stream, now);
    let vested = stream.vested(now);
    let remainder = stream.remainder(now);
    let to_recipient = Transfer {
        stream_id: target,
        token_address: stream.token_address,
        from: custody,
        to: stream.recipient,
        amount: vested as i128,
    };
    let to_sender = Transfer {
        stream_id: target,
        token_address: stream.token_address,
        from: custody,
        to: stream.sender,
        amount: remainder as i128,
    };
    let none = Seq::<Transfer>::empty();
    lemma_paid_push(none, to_recipient, custody, stream_id);
    lemma_paid_push(none, to_sender, custody, stream_id);
    lemma_paid_push(none.push(to_recipient), to_sender, custody, stream_id);
    let settlement = state.settlement_transfers(target);
    if vested > 0 && remainder > 0 {
        assert(settlement =~= none.push(to_recipient).push(to_sender));
    } else if vested > 0 {
        assert(settlement =~= none.push(to_recipient));
    } else if remainder > 0 {
        assert(settlement =~= none.push(to_sender));
    } else {
        assert(settlement =~= none);
    }
}

/// After any number of operations that are funded from outside, custody
/// holds for every stream at least what it held before, beyond its debts.
pub proof fn lemma_run_conserves(state: LedgerState, ops: Seq<Operation>, stream_id: u64)
    requires
        state.wf(),
        state.run_fits(ops),
        forall|i: int|
            0 <= i < ops.len() ==> (#[trigger] ops[i]).funded_from_outside(state.contract_address),
    ensures
        state.run(ops).surplus(stream_id) >= state.surplus(stream_id),
    decreases ops.len(),
{
    if ops.len() > 0 {
        let earlier = ops.drop_last();
        assert forall|i: int| 0 <= i < earlier.len() implies (#[trigger] earlier[i])
            .funded_from_outside(state.contract_address) by {
            assert(earlier[i] == ops[i]);
        }
        lemma_run_conserves(state, earlier, stream_id);
        lemma_run_keeps_invariant(state, earlier);
        assert(ops.last() == ops[ops.len() - 1]);
        lemma_step_conserves(state.run(earlier), ops.last(), stream_id);
    }
}

/// On a ledger that starts out fresh, whatever is done on it with funds from
/// outside, the sum of everything paid out of custody for a stream never
/// exceeds the sum of everything paid into custody for it.
pub proof fn lemma_custody_never_overpays(
    contract_address: Address,
    ops: Seq<Operation>,
    stream_id: u64,
)
    requires
        LedgerState::fresh(contract_address).run_fits(ops),
        forall|i: int|
            0 <= i < ops.len() ==> (#[trigger] ops[i]).funded_from_outside(contract_address),
    ensures
        paid_out(LedgerState::fresh(contract_address).run(ops).transfers, contract_address, stream_id)
            <= paid_in(
            LedgerState::fresh(contract_address).run(ops).transfers,
            contract_address,
            stream_id,
        ),
{
    let start = LedgerState::fresh(contract_address);
    lemma_run_conserves(start, ops, stream_id);
    lemma_run_keeps_invariant(start, ops);
    let end = start.run(ops);
    if end.streams.contains_key(stream_id) {
        assert(end.streams[stream_id].wf());
    }
}

/// Only the recipient of a stream can withdraw from it: for anyone else the
/// withdrawal is refused as unauthorized and nothing changes.
pub proof fn lemma_only_recipient_withdraws(state: LedgerState, caller: Address, stream_id: u64)
    requires
        state.streams.contains_key(stream_id),
        state.streams[stream_id].recipient != caller,
    ensures
        state.withdraw_result(caller, stream_id) == Err::<i128, StreamError>(
            StreamError::Unauthorized,
        ),
        state.after_withdraw(caller, stream_id) == state,
{
}

/// Only the sender of a stream can cancel it: for anyone else the
/// cancellation is refused as unauthorized and nothing changes.
pub proof fn lemma_only_sender_cancels(state: LedgerState, caller: Address, stream_id: u64)
    requires
        state.streams.contains_key(stream_id),
        state.streams[stream_id].sender != caller,
    ensures
        state.cancel_stream_result(caller, stream_id) == Err::<(), StreamError>(
            StreamError::Unauthorized,
        ),
        state.after_cancel_stream(caller, stream_id) == state,
{
}

/// Only the sender of a stream can top it up: for anyone else the top-up is
/// refused and nothing changes. It is refused as unauthorized whenever it
/// gets as far as the stream, that is, with the emergency stop off and a
/// positive amount.
pub proof fn lemma_only_sender_tops_up(
    state: LedgerState,
    caller: Address,
    stream_id: u64,
    amount: i128,
)
    requires
        state.streams.contains_key(stream_id),
        state.streams[stream_id].sender != caller,
    ensures
        state.top_up_stream_result(caller, stream_id, amount) is Err,
        state.after_top_up_stream(caller, stream_id, amount) == state,
        !state.is_emergency_mode() && amount > 0 ==> state.top_up_stream_result(
            caller,
            stream_id,
            amount,
        ) == Err::<(), StreamError>(StreamError::Unauthorized),
{
}

/// A stream that has ended refuses every further withdrawal, top-up and
/// cancellation, and nothing changes. The party the operation is reserved
/// for is told that the stream is inactive; for a top-up that is so with the
/// emergency stop off and a positive amount.
pub proof fn lemma_ended_stream_refuses(
    state: LedgerState,
    caller: Address,
    stream_id: u64,
    amount: i128,
)
    requires
        state.streams.contains_key(stream_id),
        !state.streams[stream_id].is_active,
    ensures
        state.withdraw_result(caller, stream_id) is Err,
        state.top_up_stream_result(caller, stream_id, amount) is Err,
        state.cancel_stream_result(caller, stream_id) is Err,
        state.after_withdraw(caller, stream_id) == state,
        state.after_top_up_stream(caller, stream_id, amount) == state,
        state.after_cancel_stream(caller, stream_id) == state,
        caller == state.streams[stream_id].recipient ==> state.withdraw_result(caller, stream_id)
            == Err::<i128, StreamError>(StreamError::StreamInactive),
        caller == state.streams[stream_id].sender ==> state.cancel_stream_result(caller, stream_id)
            == Err::<(), StreamError>(StreamError::StreamInactive),
        caller == state.streams[stream_id].sender && !state.is_emergency_mode() && amount > 0
            ==> state.top_up_stream_result(caller, stream_id, amount) == Err::<(), StreamError>(
            StreamError::StreamInactive,
        ),
{
}

/// Ending is final: whatever is done on the ledger afterwards, the record of
/// a stream that has ended stays exactly as it was.
pub proof fn lemma_ended_stream_stays(state: LedgerState, ops: Seq<Operation>, stream_id: u64)
    requires
        state.wf(),
        state.run_fits(ops),
        state.streams.contains_key(stream_id),
        !state.streams[stream_id].is_active,
    ensures
        state.run(ops).streams.contains_key(stream_id),
        state.run(ops).streams[stream_id] == state.streams[stream_id],
    decreases ops.len(),
{
    if ops.len() > 0 {
        lemma_ended_stream_stays(state, ops.drop_last(), stream_id);
        lemma_run_keeps_invariant(state, ops.drop_last());
    }
}

/// While the emergency stop is on no stream can be created or topped up:
/// both are refused on that ground, whatever else is asked, and nothing
/// changes.
pub proof fn lemma_emergency_stops_funding(
    state: LedgerState,
    sender: Address,
    recipient: Address,
    token_address: Address,
    stream_id: u64,
    amount: i128,
    duration: u64,
)
    requires
        state.is_emergency_mode(),
    ensures
        state.create_stream_result(amount, duration) == Err::<u64, StreamError>(
            StreamError::EmergencyStopEnabled,
        ),
        state.after_create_stream(sender, recipient, token_address, amount, duration) == state,
        state.top_up_stream_result(sender, stream_id, amount) == Err::<(), StreamError>(
            StreamError::EmergencyStopEnabled,
        ),
        state.after_top_up_stream(sender, stream_id, amount) == state,
{
}

/// The emergency stop does not hold a recipient back: with it on, the
/// recipient of an active stream that has anything left is paid all of it.
pub proof fn lemma_emergency_spares_withdrawal(state: LedgerState, stream_id: u64)
    requires
        state.is_emergency_mode(),
        state.streams.contains_key(stream_id),
        state.streams[stream_id].is_active,
        state.streams[stream_id].withdrawn_amount < state.streams[stream_id].deposited_amount,
        state.streams[stream_id].wf(),
    ensures
        state.withdraw_result(state.streams[stream_id].recipient, stream_id) == Ok::<
            i128,
            StreamError,
        >(
            (state.streams[stream_id].deposited_amount
                - state.streams[stream_id].withdrawn_amount) as i128,
        ),
        state.after_withdraw(state.streams[stream_id].recipient, stream_id).streams[stream_id].withdrawn_amount
            == state.streams[stream_id].deposited_amount,
{
}

/// Whether every active stream of the state has something left to claim.
pub open spec fn active_streams_are_funded(state: LedgerState) -> bool {
    forall|id: u64| #[trigger]
        state.streams.contains_key(id) && state.streams[id].is_active
            ==> state.streams[id].withdrawn_amount < state.streams[id].deposited_amount
}

/// No operation leaves an active stream with nothing to claim: a stream is
/// created with a positive deposit, a top-up adds to it, and a withdrawal
/// that takes everything ends the stream.
pub proof fn lemma_step_keeps_active_streams_funded(state: LedgerState, op: Operation)
    requires
        state.wf(),
        state.fits(op),
        active_streams_are_funded(state),
    ensures
        active_streams_are_funded(state.step(op)),
{
    let next = state.step(op);
    assert forall|id: u64| #[trigger]
        next.streams.contains_key(id) && next.streams[id].is_active implies next.streams[id].withdrawn_amount
        < next.streams[id].deposited_amount by {
        if state.streams.contains_key(id) {
            assert(state.streams[id].wf());
        }
    }
}

/// After any number of operations every active stream still has something
/// left to claim, if that was so to begin with.
pub proof fn lemma_run_keeps_active_streams_funded(state: LedgerState, ops: Seq<Operation>)
    requires
        state.wf(),
        state.run_fits(ops),
        active_streams_are_funded(state),
    ensures
        active_streams_are_funded(state.run(ops)),
    decreases ops.len(),
{
    if ops.len() > 0 {
        lemma_run_keeps_active_streams_funded(state, ops.drop_last());
        lemma_run_keeps_invariant(state, ops.drop_last());
        lemma_step_keeps_active_streams_funded(state.run(ops.drop_last()), ops.last());
    }
}

/// On a ledger that starts out fresh a recipient can always get out:
/// whatever was done before, and whether or not the emergency stop is on,
/// the recipient of an active stream is paid everything that is left of its
/// deposit.
pub proof fn lemma_recipient_can_always_withdraw(
    contract_address: Address,
    ops: Seq<Operation>,
    stream_id: u64,
)
    requires
        LedgerState::fresh(contract_address).run_fits(ops),
        LedgerState::fresh(contract_address).run(ops).streams.contains_key(stream_id),
        LedgerState::fresh(contract_address).run(ops).streams[stream_id].is_active,
    ensures
        ({
            let state = LedgerState::fresh(contract_address).run(ops);
            let stream = state.streams[stream_id];
            &&& stream.deposited_amount - stream.withdrawn_amount > 0
            &&& state.withdraw_result(stream.recipient, stream_id) == Ok::<i128, StreamError>(
                (stream.deposited_amount - stream.withdrawn_amount) as i128,
            )
        }),
{
    let start = LedgerState::fresh(contract_address);
    lemma_run_keeps_active_streams_funded(start, ops);
    lemma_run_keeps_invariant(start, ops);
    assert(start.run(ops).streams[stream_id].wf());
}

/// Withdrawing and cancelling do not look at the emergency stop: whatever
/// the flag says, they give the same result.
pub proof fn lemma_exits_ignore_emergency(
    state: LedgerState,
    flag: Option<bool>,
    caller: Address,
    stream_id: u64,
)
    ensures
        (LedgerState { emergency_stop: flag, ..state }).withdraw_result(caller, stream_id)
            == state.withdraw_result(caller, stream_id),
        (LedgerState { emergency_stop: flag, ..state }).cancel_stream_result(caller, stream_id)
            == state.cancel_stream_result(caller, stream_id),
{
}

/// Only the registered administrator can switch the emergency stop: anyone
/// else is refused as not being the administrator, and the emergency stop
/// stays as it was.
pub proof fn lemma_only_admin_switches(
    state: LedgerState,
    caller: Address,
    enabled: bool,
)
    requires
        state.admin matches Some(registered) && registered != caller,
    ensures
        state.set_emergency_mode_result(caller) == Err::<(), StreamError>(StreamError::NotAdmin),
        state.after_set_emergency_mode(caller, enabled) == state,
        state.after_set_emergency_mode(caller, enabled).is_emergency_mode()
            == state.is_emergency_mode(),
{
}

} // verus!
