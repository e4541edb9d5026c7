//! A stream: one sender-to-recipient agreement over a deposit, and the
//! arithmetic that splits the deposit between the two when it is cancelled.

use vstd::prelude::*;
use crate::address::Address;
use crate::math::prorate;

verus! {

/// The record of one stream.
#[derive(Clone, Copy, Debug, PartialEq, Eq)]
pub struct Stream {
    /// Who funded the stream, and who may top it up or cancel it.
    pub sender: Address,
    /// Who may withdraw from the stream.
    pub recipient: Address,
    /// The asset that the stream pays in.
    pub token_address: Address,
    /// The first deposit divided by the duration, rounded down. It is fixed
    /// when the stream is created and never recomputed.
    pub rate_per_second: i128,
    /// Everything deposited so far: the first deposit and all top-ups.
    pub deposited_amount: i128,
    /// Everything withdrawn by the recipient so far.
    pub withdrawn_amount: i128,
    /// When the stream was created.
    pub start_time: u64,
    /// When the stream was last changed.
    pub last_update_time: u64,
    /// The time over which the stream vests, counted from `start_time`.
    pub duration: u64,
    /// Whether the stream still accepts operations. Once `false` it stays
    /// `false`.
    pub is_active: bool,
}

/// How a cancelled stream is split between its two parties.
#[derive(Clone, Copy, Debug, PartialEq, Eq, Structural)]
pub struct Settlement {
    /// What goes to the recipient.
    pub vested: i128,
    /// What goes back to the sender.
    pub remainder: i128,
}

/// The time that has passed since `start`, zero if `now` is earlier.
pub open spec fn elapsed_since(start: u64, now: u64) -> int {
    if now >= start {
        now - start
    } else {
        0
    }
}

impl Stream {
    /// The invariant of a stream record: the accounts are never overdrawn,
    /// the rate is a non-negative part of the deposit, the duration is
    /// positive and time does not run backwards.
    pub open spec fn wf(self) -> bool {
        &&& self.duration > 0
        &&& 0 <= self.rate_per_second <= self.deposited_amount
        &&& 0 <= self.withdrawn_amount <= self.deposited_amount
        &&& self.start_time <= self.last_update_time
    }

    /// What the recipient can still claim: the deposit less what was
    /// withdrawn.
    pub open spec fn claimable(self) -> int {
        self.deposited_amount - self.withdrawn_amount
    }

    /// The part of the rate allotment that has vested at `now`, before
    /// withdrawals are taken off: all of it once the duration has passed,
    /// before that the share `elapsed / duration` of it, rounded down.
    pub open spec fn vested_raw(self, now: u64) -> int {
        let elapsed = elapsed_since(self.start_time, now);
        if elapsed >= self.duration {
            self.rate_per_second as int
        } else {
            (self.rate_per_second * elapsed) / (self.duration as int)
        }
    }

    /// What a cancellation at `now` pays to the recipient: the vested part
    /// less what was already withdrawn, and never less than zero.
    pub open spec fn vested(self, now: u64) -> int {
        if self.vested_raw(now) > self.withdrawn_amount {
            self.vested_raw(now) - self.withdrawn_amount
        } else {
            0
        }
    }

    /// What a cancellation at `now` returns to the sender: the rate
    /// allotment less what was withdrawn and what is paid to the recipient,
    /// and never less than zero.
    pub open spec fn remainder(self, now: u64) -> int {
        let rest = self.rate_per_second - self.withdrawn_amount - self.vested(now);
        if rest > 0 {
            rest
        } else {
            0
        }
    }

    /// The record of a stream opened at `now` with a first deposit of
    /// `amount` that vests over `duration`.
    pub open spec fn spec_open(
        sender: Address,
        recipient: Address,
        token_address: Address,
        amount: i128,
        duration: u64,
        now: u64,
    ) -> Stream {
        Stream {
            sender,
            recipient,
            token_address,
            rate_per_second: ((amount as int) / (duration as int)) as i128,
            deposited_amount: amount,
            withdrawn_amount: 0,
            start_time: now,
            last_update_time: now,
            duration,
            is_active: true,
        }
    }

    /// Opens a stream at `now` with a first deposit of `amount` that vests
    /// over `duration`. The rate is `amount / duration`, rounded down; what
    /// the division leaves over is not part of the rate.
    pub fn open(
        sender: Address,
        recipient: Address,
        token_address: Address,
        amount: i128,
        duration: u64,
        now: u64,
    ) -> (stream: Stream)
        requires
            amount > 0,
            duration > 0,
        ensures
            stream == Stream::spec_open(sender, recipient, token_address, amount, duration, now),
            stream.rate_per_second == (amount as int) / (duration as int),
            stream.wf(),
    {
        proof {
            assert(0 <= (amount as int) / (duration as int) <= amount) by (nonlinear_arith)
                requires
                    0 < amount,
                    0 < duration,
            ;
        }
        Stream {
            sender,
            recipient,
            token_address,
            rate_per_second: amount / (duration as i128),
            deposited_amount: amount,
            withdrawn_amount: 0,
            start_time: now,
            last_update_time: now,
            duration,
            is_active: true,
        }
    }

    /// Whether the record satisfies the invariant of a stream.
    pub fn is_well_formed(&self) -> (ok: bool)
        ensures
            ok == self.wf(),
    {
        self.duration > 0 && 0 <= self.rate_per_second && self.rate_per_second
            <= self.deposited_amount && 0 <= self.withdrawn_amount && self.withdrawn_amount
            <= self.deposited_amount && self.start_time <= self.last_update_time
    }

    /// The split of the stream between recipient and sender if it is
    /// cancelled at `now`.
    ///
    /// The two parts are never negative, and together with what was already
    /// withdrawn they never exceed the deposit. Once the duration has passed
    /// nothing goes back to the sender.
    pub fn settlement(&self, now: u64) -> (split: Settlement)
        requires
            self.wf(),
        ensures
            split.vested == self.vested(now),
            split.remainder == self.remainder(now),
            0 <= split.vested,
            0 <= split.remainder,
            self.withdrawn_amount + split.vested + split.remainder <= self.deposited_amount,
            elapsed_since(self.start_time, now) >= self.duration ==> {
                &&& split.remainder == 0
                &&& split.vested + self.withdrawn_amount == self.rate_per_second
                    || (split.vested == 0 && self.rate_per_second <= self.withdrawn_amount)
            },
    {
        let elapsed: u64 = if now >= self.start_time {
            now - self.start_time
        } else {
            0
        };
        let vested_raw: i128 = if elapsed >= self.duration {
            self.rate_per_second
        } else {
            prorate(self.rate_per_second as u128, elapsed, self.duration) as i128
        };
        let vested: i128 = if vested_raw > self.withdrawn_amount {
            vested_raw - self.withdrawn_amount
        } else {
            0
        };
        let rest: i128 = self.rate_per_second - self.withdrawn_amount - vested;
        let remainder: i128 = if rest > 0 {
            rest
        } else {
            0
        };
        Settlement { vested, remainder }
    }
}

} // verus!
