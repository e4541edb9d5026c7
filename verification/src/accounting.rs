//! What has flowed into and out of custody on behalf of each stream.

use vstd::prelude::*;
use crate::address::Address;
use crate::events::Transfer;
use crate::model::LedgerState;

verus! {

/// What the transfer brings into custody for the stream `stream_id`.
pub open spec fn inflow(transfer: Transfer, custody: Address, stream_id: u64) -> int {
    if transfer.stream_id == stream_id && transfer.to == custody {
        transfer.amount as int
    } else {
        0
    }
}

/// What the transfer takes out of custody for the stream `stream_id`.
pub open spec fn outflow(transfer: Transfer, custody: Address, stream_id: u64) -> int {
    if transfer.stream_id == stream_id && transfer.from == custody {
        transfer.amount as int
    } else {
        0
    }
}

/// Everything the transfers brought into custody for the stream.
pub open spec fn paid_in(transfers: Seq<Transfer>, custody: Address, stream_id: u64) -> int
    decreases transfers.len(),
{
    if transfers.len() == 0 {
        0
    } else {
        paid_in(transfers.drop_last(), custody, stream_id) + inflow(
            transfers.last(),
            custody,
            stream_id,
        )
    }
}

/// Everything the transfers took out of custody for the stream.
pub open spec fn paid_out(transfers: Seq<Transfer>, custody: Address, stream_id: u64) -> int
    decreases transfers.len(),
{
    if transfers.len() == 0 {
        0
    } else {
        paid_out(transfers.drop_last(), custody, stream_id) + outflow(
            transfers.last(),
            custody,
            stream_id,
        )
    }
}

impl LedgerState {
    /// What the ledger still owes on the stream: what is left of the deposit
    /// while the stream is active, nothing once it has ended or if there is
    /// no such stream.
    pub open spec fn held(self, stream_id: u64) -> int {
        if self.streams.contains_key(stream_id) && self.streams[stream_id].is_active {
            self.streams[stream_id].claimable()
        } else {
            0
        }
    }

    /// What custody has taken in for the stream beyond what it has paid out
    /// and what it still owes.
    pub open spec fn surplus(self, stream_id: u64) -> int {
        paid_in(self.transfers, self.contract_address, stream_id) - paid_out(
            self.transfers,
            self.contract_address,
            stream_id,
        ) - self.held(stream_id)
    }
}

/// One more transfer adds its inflow and its outflow to the sums.
pub proof fn lemma_paid_push(
    transfers: Seq<Transfer>,
    transfer: Transfer,
    custody: Address,
    stream_id: u64,
)
    ensures
        paid_in(transfers.push(transfer), custody, stream_id) == paid_in(
            transfers,
            custody,
            stream_id,
        ) + inflow(transfer, custody, stream_id),
        paid_out(transfers.push(transfer), custody, stream_id) == paid_out(
            transfers,
            custody,
            stream_id,
        ) + outflow(transfer, custody, stream_id),
{
    assert(transfers.push(transfer).drop_last() =~= transfers);
}

/// The sums over two lists of transfers, one after the other, are the sums
/// over each added up.
pub proof fn lemma_paid_concat(
    first: Seq<Transfer>,
    second: Seq<Transfer>,
    custody: Address,
    stream_id: u64,
)
    ensures
        paid_in(first + second, custody, stream_id) == paid_in(first, custody, stream_id)
            + paid_in(second, custody, stream_id),
        paid_out(first + second, custody, stream_id) == paid_out(first, custody, stream_id)
            + paid_out(second, custody, stream_id),
    decreases second.len(),
{
    if second.len() == 0 {
        assert(first + second =~= first);
    } else {
        lemma_paid_concat(first, second.drop_last(), custody, stream_id);
        assert((first + second).drop_last() =~= first + second.drop_last());
        assert((first + second).last() == second.last());
    }
}

} // verus!
