//! Properties of the dispute resolver's storage that span its operations.

use vstd::prelude::*;

use super::storage::DisputeResolverState;

verus! {

/// `get_next_dispute_id` hands out ids in strictly increasing order without
/// gaps: two successive calls give consecutive ids, each one more than the
/// stored count before it.
pub proof fn lemma_dispute_ids_consecutive<D, R>(state: DisputeResolverState<D, R>)
    requires
        state.dispute_count < u64::MAX - 1,
    ensures
        state.next_dispute_id() == state.dispute_count + 1,
        state.after_next_id().next_dispute_id() == state.next_dispute_id() + 1,
        state.after_next_id().dispute_count == state.next_dispute_id(),
{
}

/// `get_dispute_by_tx` after `set_dispute_by_tx` gives back the dispute id
/// written, and every other transaction's lookup is as it was.
pub proof fn lemma_tx_lookup_reads_back<D, R>(
    state: DisputeResolverState<D, R>,
    tx_id: [u8; 32],
    dispute_id: u64,
    other: [u8; 32],
)
    requires
        other != tx_id,
    ensures
        state.with_tx_dispute(tx_id, dispute_id).tx_disputes.get(tx_id) == Some(dispute_id),
        state.with_tx_dispute(tx_id, dispute_id).tx_disputes.get(other) == state.tx_disputes.get(other),
{
}

} // verus!
