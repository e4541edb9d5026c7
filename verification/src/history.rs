//! Histories: what a ledger becomes after any number of operations.

use vstd::prelude::*;
use crate::address::Address;
use crate::model::LedgerState;

verus! {

/// One call on the ledger, with its arguments.
pub enum Operation {
    AdvanceTime { now: u64 },
    Initialize { admin: Address },
    SetEmergencyMode { admin: Address, enabled: bool },
    CreateStream {
        sender: Address,
        recipient: Address,
        token_address: Address,
        amount: i128,
        duration: u64,
    },
    TopUpStream { sender: Address, stream_id: u64, amount: i128 },
    Withdraw { recipient: Address, stream_id: u64 },
    CancelStream { sender: Address, stream_id: u64 },
}

impl Operation {
    /// Whether the funds that the operation deposits come from a party other
    /// than the ledger itself. Only creating and topping up deposit funds.
    pub open spec fn funded_from_outside(self, custody: Address) -> bool {
        match self {
            Operation::CreateStream { sender, .. } => sender != custody,
            Operation::TopUpStream { sender, .. } => sender != custody,
            _ => true,
        }
    }
}

impl LedgerState {
    /// The state after one operation.
    pub open spec fn step(self, op: Operation) -> LedgerState {
        match op {
            Operation::AdvanceTime { now } => self.after_advance_time(now),
            Operation::Initialize { admin } => self.after_initialize(admin),
            Operation::SetEmergencyMode { admin, enabled } => self.after_set_emergency_mode(
                admin,
                enabled,
            ),
            Operation::CreateStream { sender, recipient, token_address, amount, duration } => {
                self.after_create_stream(sender, recipient, token_address, amount, duration)
            },
            Operation::TopUpStream { sender, stream_id, amount } => self.after_top_up_stream(
                sender,
                stream_id,
                amount,
            ),
            Operation::Withdraw { recipient, stream_id } => self.after_withdraw(
                recipient,
                stream_id,
            ),
            Operation::CancelStream { sender, stream_id } => self.after_cancel_stream(
                sender,
                stream_id,
            ),
        }
    }

    /// Whether the operation stays within what the machine can count: a
    /// stream can be created only while ids are left, and topped up only
    /// while the deposit fits its type. Operations that are refused always
    /// fit.
    pub open spec fn fits(self, op: Operation) -> bool {
        match op {
            Operation::CreateStream { amount, duration, .. } => self.create_stream_result(
                amount,
                duration,
            ) is Ok ==> self.counter() < u64::MAX,
            Operation::TopUpStream { sender, stream_id, amount } => self.top_up_stream_result(
                sender,
                stream_id,
                amount,
            ) is Ok ==> self.streams[stream_id].deposited_amount + amount <= i128::MAX,
            _ => true,
        }
    }

    /// The id that the operation hands out: that of the stream it creates,
    /// if it creates one.
    pub open spec fn created_id(self, op: Operation) -> Option<u64> {
        match op {
            Operation::CreateStream { amount, duration, .. } => match self.create_stream_result(
                amount,
                duration,
            ) {
                Ok(stream_id) => Some(stream_id),
                Err(_) => None,
            },
            _ => None,
        }
    }

    /// The state after the operations `ops`, first to last.
    pub open spec fn run(self, ops: Seq<Operation>) -> LedgerState
        decreases ops.len(),
    {
        if ops.len() == 0 {
            self
        } else {
            self.run(ops.drop_last()).step(ops.last())
        }
    }

    /// Whether every operation of `ops` fits in the state it is applied to.
    pub open spec fn run_fits(self, ops: Seq<Operation>) -> bool
        decreases ops.len(),
    {
        if ops.len() == 0 {
            true
        } else {
            self.run_fits(ops.drop_last()) && self.run(ops.drop_last()).fits(ops.last())
        }
    }

    /// The ids handed out by the operations `ops`, in the order in which
    /// they were handed out.
    pub open spec fn ids_handed_out(self, ops: Seq<Operation>) -> Seq<u64>
        decreases ops.len(),
    {
        if ops.len() == 0 {
            Seq::empty()
        } else {
            let before = self.ids_handed_out(ops.drop_last());
            match self.run(ops.drop_last()).created_id(ops.last()) {
                Some(stream_id) => before.push(stream_id),
                None => before,
            }
        }
    }
}

} // verus!
