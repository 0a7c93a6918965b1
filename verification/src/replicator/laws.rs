//! What holds of the secondary across calls.

use vstd::prelude::*;

use crate::replicator::receiver::{
    CopyEvent, CopyItem, CopyPhase, CopyTally, PartitionProgress, ReceiverError, ReceiverView,
    ReplicationEvent, ReplicationPhase,
};
use crate::replicator::secondary::{ReplicationItem, SecondaryView};
use crate::types::{Epoch, Lsn};

verus! {

/// An epoch change keeps every committed operation and drops every other one.
pub proof fn epoch_change_keeps_exactly_the_committed(state: SecondaryView, epoch: Epoch, lsn: Lsn)
    ensures
        state.with_epoch(epoch).epoch == epoch,
        state.with_epoch(epoch).committed == state.committed,
        state.with_epoch(epoch).received == state.committed,
        state.with_epoch(epoch).log.contains_key(lsn) <==> state.log.contains_key(lsn) && lsn
            <= state.committed,
        state.with_epoch(epoch).log.contains_key(lsn) ==> state.with_epoch(epoch).log[lsn]
            == state.log[lsn],
{
}

/// An epoch change drops nothing once the committed LSN has been brought up to what
/// was received.
pub proof fn epoch_change_preserves_what_is_known_to_be_accepted(
    state: SecondaryView,
    epoch: Epoch,
)
    requires
        state.well_formed(),
    ensures
        ({
            let accepted = SecondaryView { committed: state.received, ..state };
            accepted.with_epoch(epoch) == (SecondaryView { epoch, ..accepted })
        }),
{
    let accepted = SecondaryView { committed: state.received, ..state };
    assert(accepted.with_epoch(epoch).log =~= state.log);
}

/// A second change to the same epoch finds nothing left to drop.
pub proof fn epoch_change_is_idempotent(state: SecondaryView, epoch: Epoch)
    ensures
        state.with_epoch(epoch).with_epoch(epoch) == state.with_epoch(epoch),
{
    assert(state.with_epoch(epoch).with_epoch(epoch).log =~= state.with_epoch(epoch).log);
}

/// An accepted item is in the log under its LSN, every other entry stays, and
/// neither watermark moves backwards.
pub proof fn accepted_item_is_logged(state: SecondaryView, item: ReplicationItem, other: Lsn)
    ensures
        state.with_item(item).log.contains_key(item.lsn),
        state.with_item(item).log[item.lsn] == item.data@,
        other != item.lsn ==> (state.with_item(item).log.contains_key(other)
            == state.log.contains_key(other)),
        other != item.lsn && state.log.contains_key(other) ==> state.with_item(item).log[other]
            == state.log[other],
        state.with_item(item).received >= state.received,
        state.with_item(item).received >= item.lsn,
        state.with_item(item).committed >= state.committed,
        state.with_item(item).epoch == state.epoch,
{
}

/// No operation of the log ever lies beyond the highest received LSN.
pub proof fn log_stays_well_formed(state: SecondaryView, item: ReplicationItem, epoch: Epoch)
    requires
        state.well_formed(),
    ensures
        SecondaryView::initial().well_formed(),
        state.with_item(item).well_formed(),
        state.with_epoch(epoch).well_formed(),
{
}

/// After an epoch change every item of an older epoch is refused, and a refused
/// item changes nothing: it ends the stream without an acknowledgement.
pub proof fn stale_items_are_fenced(
    receiver: ReceiverView,
    epoch: Epoch,
    item: ReplicationItem,
)
    requires
        item.epoch().precedes(epoch),
    ensures
        ({
            let fenced = ReceiverView { state: receiver.state.with_epoch(epoch), ..receiver };
            let arrival = ReplicationEvent::Item(item);
            &&& fenced.state.refuses(item.epoch())
            &&& fenced.after_replication(ReplicationPhase::Receiving, arrival) == fenced
            &&& fenced.replication_phase(ReplicationPhase::Receiving, arrival)
                == ReplicationPhase::Stopped
        }),
{
}

/// In persisted mode the published progress moves, and an acknowledgement is sent
/// to the primary, only when the application has acknowledged the operation.
pub proof fn progress_waits_for_the_application(
    receiver: ReceiverView,
    phase: ReplicationPhase,
    event: ReplicationEvent,
)
    requires
        receiver.forwards,
        phase.spec_expects(event),
        event != ReplicationEvent::ApplicationDone(true),
    ensures
        receiver.after_replication(phase, event).partition == receiver.partition,
        !(receiver.replication_phase(phase, event) is Acknowledging),
{
}

/// Whenever an operation is acknowledged to the primary, it is covered by the
/// published progress.
pub proof fn acknowledged_operations_are_covered(
    receiver: ReceiverView,
    phase: ReplicationPhase,
    event: ReplicationEvent,
)
    requires
        phase.spec_expects(event),
        receiver.replication_phase(phase, event) is Acknowledging,
    ensures
        receiver.after_replication(phase, event).partition matches Some(progress)
            ==> progress.current_progress >= receiver.replication_phase(
            phase,
            event,
        )->Acknowledging_lsn,
{
}

/// No event of a replication stream moves published progress backwards.
pub proof fn progress_never_moves_backwards(
    receiver: ReceiverView,
    phase: ReplicationPhase,
    event: ReplicationEvent,
)
    ensures
        (receiver.partition is Some) == (receiver.after_replication(phase, event).partition is Some),
        receiver.partition matches Some(before) ==> {
            let after = receiver.after_replication(phase, event).partition->Some_0;
            after.current_progress >= before.current_progress && after.committed_lsn
                >= before.committed_lsn
        },
{
}

/// Where a stream that waits for an item, and the receiver behind it, have come to
/// once the item was handed on and acknowledged by whoever had to.
pub open spec fn after_exchange(receiver: ReceiverView, item: ReplicationItem) -> (
    ReceiverView,
    ReplicationPhase,
) {
    let arrival = ReplicationEvent::Item(item);
    let logged = receiver.after_replication(ReplicationPhase::Receiving, arrival);
    let phase = receiver.replication_phase(ReplicationPhase::Receiving, arrival);
    if receiver.forwards {
        let forwarded = logged.replication_phase(phase, ReplicationEvent::Forwarded(true));
        let done = ReplicationEvent::ApplicationDone(true);
        let applied = logged.after_replication(forwarded, done);
        let acknowledging = logged.replication_phase(forwarded, done);
        (applied, applied.replication_phase(acknowledging, ReplicationEvent::AckSent(true)))
    } else {
        (logged, logged.replication_phase(phase, ReplicationEvent::AckSent(true)))
    }
}

/// A whole exchange logs the item and counts it as progress, in either mode, and
/// leaves the stream waiting for the next item.
pub proof fn exchange_counts_once(receiver: ReceiverView, item: ReplicationItem)
    requires
        !receiver.state.refuses(item.epoch()),
    ensures
        after_exchange(receiver, item).0 == (ReceiverView {
            state: receiver.state.with_item(item),
            ..receiver
        }).with_progress(item.lsn, item.committed_lsn),
        after_exchange(receiver, item).1 == ReplicationPhase::Receiving,
{
}

/// The receiver after a run of whole exchanges.
pub open spec fn after_exchanges(
    receiver: ReceiverView,
    items: Seq<ReplicationItem>,
) -> ReceiverView
    decreases items.len(),
{
    if items.len() == 0 {
        receiver
    } else {
        after_exchange(after_exchanges(receiver, items.drop_last()), items.last()).0
    }
}

/// After a run of exchanges the published progress is the highest LSN among what
/// was published before and the items of the run; the commit watermark likewise.
pub proof fn progress_is_the_highest_acknowledged(
    receiver: ReceiverView,
    items: Seq<ReplicationItem>,
    before: PartitionProgress,
)
    requires
        receiver.partition == Some(before),
        forall|i: int|
            0 <= i < items.len() ==> !receiver.state.refuses((#[trigger] items[i]).epoch()),
    ensures
        after_exchanges(receiver, items).state.epoch == receiver.state.epoch,
        after_exchanges(receiver, items).partition matches Some(after) && {
            &&& after.current_progress >= before.current_progress
            &&& after.committed_lsn >= before.committed_lsn
            &&& forall|i: int|
                0 <= i < items.len() ==> after.current_progress >= (#[trigger] items[i]).lsn
                    && after.committed_lsn >= items[i].committed_lsn
            &&& after.current_progress == before.current_progress || exists|i: int|
                0 <= i < items.len() && (#[trigger] items[i]).lsn == after.current_progress
            &&& after.committed_lsn == before.committed_lsn || exists|i: int|
                0 <= i < items.len() && (#[trigger] items[i]).committed_lsn
                    == after.committed_lsn
        },
    decreases items.len(),
{
    if items.len() > 0 {
        let rest = items.drop_last();
        assert forall|i: int| 0 <= i < rest.len() implies !receiver.state.refuses(
            (#[trigger] rest[i]).epoch(),
        ) by {
            assert(rest[i] == items[i]);
        }
        progress_is_the_highest_acknowledged(receiver, rest, before);
        let so_far = after_exchanges(receiver, rest);
        exchange_counts_once(so_far, items.last());
        let after = after_exchanges(receiver, items).partition->Some_0;
        let mid = so_far.partition->Some_0;
        assert forall|i: int| 0 <= i < items.len() implies after.current_progress
            >= (#[trigger] items[i]).lsn && after.committed_lsn >= items[i].committed_lsn by {
            if i < rest.len() {
                assert(rest[i] == items[i]);
            }
        }
        if after.current_progress == mid.current_progress {
            if mid.current_progress != before.current_progress {
                let i = choose|i: int|
                    0 <= i < rest.len() && (#[trigger] rest[i]).lsn == mid.current_progress;
                assert(items[i].lsn == after.current_progress);
            }
        } else {
            assert(items[items.len() - 1].lsn == after.current_progress);
        }
        if after.committed_lsn == mid.committed_lsn {
            if mid.committed_lsn != before.committed_lsn {
                let i = choose|i: int|
                    0 <= i < rest.len() && (#[trigger] rest[i]).committed_lsn == mid.committed_lsn;
                assert(items[i].committed_lsn == after.committed_lsn);
            }
        } else {
            assert(items[items.len() - 1].committed_lsn == after.committed_lsn);
        }
    }
}

/// An epoch change takes no acknowledged operation back from the published
/// progress, though the log may drop its copy of it.
pub proof fn epoch_change_preserves_acknowledged_progress(
    receiver: ReceiverView,
    items: Seq<ReplicationItem>,
    before: PartitionProgress,
    epoch: Epoch,
    i: int,
)
    requires
        receiver.partition == Some(before),
        forall|j: int|
            0 <= j < items.len() ==> !receiver.state.refuses((#[trigger] items[j]).epoch()),
        0 <= i < items.len(),
    ensures
        ({
            let acknowledged = after_exchanges(receiver, items);
            let changed = ReceiverView {
                state: acknowledged.state.with_epoch(epoch),
                ..acknowledged
            };
            changed.partition matches Some(progress) && progress.current_progress >= items[i].lsn
        }),
{
    progress_is_the_highest_acknowledged(receiver, items, before);
}

/// Where a copy stream stands once `items` have arrived and the application has
/// taken all their data.
pub open spec fn after_copy_items(items: Seq<CopyItem>) -> CopyPhase
    decreases items.len(),
{
    if items.len() == 0 {
        CopyPhase::Receiving(CopyTally::empty())
    } else {
        let arrived = after_copy_items(items.drop_last()).next(CopyEvent::Item(items.last()));
        if arrived is Delivering {
            arrived.next(CopyEvent::Delivered(true))
        } else {
            arrived
        }
    }
}

/// A copy stream that is in order: it ends in its only boundary, and no LSN lies
/// beyond the boundary's.
pub open spec fn is_complete_copy(items: Seq<CopyItem>) -> bool {
    &&& items.len() > 0
    &&& items.last().is_boundary
    &&& forall|i: int| 0 <= i < items.len() - 1 ==> !(#[trigger] items[i]).is_boundary
    &&& forall|i: int| 0 <= i < items.len() ==> (#[trigger] items[i]).lsn <= items.last().lsn
}

spec fn no_boundary_before(items: Seq<CopyItem>, end: int) -> bool {
    forall|i: int| 0 <= i < end ==> !(#[trigger] items[i]).is_boundary
}

spec fn is_highest(items: Seq<CopyItem>, lsn: Lsn) -> bool {
    &&& forall|i: int| 0 <= i < items.len() ==> (#[trigger] items[i]).lsn <= lsn
    &&& exists|i: int| 0 <= i < items.len() && (#[trigger] items[i]).lsn == lsn
}

/// What [`after_copy_items`] is, by the position of the first boundary.
proof fn lemma_after_copy_items(items: Seq<CopyItem>)
    requires
        items.len() < i64::MAX,
    ensures
        no_boundary_before(items, items.len() as int) ==> {
            &&& after_copy_items(items) matches CopyPhase::Receiving(tally)
            &&& tally.count == items.len()
            &&& tally.boundary is None
            &&& items.len() == 0 ==> tally.progress is None
            &&& items.len() > 0 ==> tally.progress is Some && is_highest(
                items,
                tally.progress->Some_0,
            )
        },
        items.len() > 0 && no_boundary_before(items, items.len() - 1) && items.last().is_boundary
            ==> {
            &&& after_copy_items(items) matches CopyPhase::Receiving(tally)
            &&& tally.count == items.len() - 1
            &&& tally.boundary == Some(items.last().lsn)
            &&& tally.progress is Some
            &&& is_highest(items, tally.progress->Some_0)
        },
        items.len() > 0 && !no_boundary_before(items, items.len() - 1) ==> after_copy_items(items)
            == CopyPhase::Finished,
    decreases items.len(),
{
    if items.len() > 0 {
        let rest = items.drop_last();
        let last = items.last();
        lemma_after_copy_items(rest);
        assert(forall|i: int| 0 <= i < rest.len() ==> #[trigger] rest[i] == items[i]);
        let before = after_copy_items(rest);
        if no_boundary_before(items, items.len() - 1) {
            assert(no_boundary_before(rest, rest.len() as int)) by {
                assert forall|i: int| 0 <= i < rest.len() implies !(
                #[trigger] rest[i]).is_boundary by {
                    assert(!items[i].is_boundary);
                }
            }
            let tally = before->Receiving_0;
            let counted = tally.with_item(last.lsn, last.is_boundary);
            let highest = counted.progress->Some_0;
            assert(is_highest(items, highest)) by {
                assert forall|i: int| 0 <= i < items.len() implies (#[trigger] items[i]).lsn
                    <= highest by {
                    if i < rest.len() {
                        assert(rest[i].lsn <= tally.progress->Some_0);
                    }
                }
                if rest.len() == 0 || highest == last.lsn {
                    assert(items[items.len() - 1].lsn == highest);
                } else {
                    let k = choose|k: int|
                        0 <= k < rest.len() && (#[trigger] rest[k]).lsn == tally.progress->Some_0;
                    assert(items[k].lsn == highest);
                }
            }
            if no_boundary_before(items, items.len() as int) {
                assert(!items[items.len() - 1].is_boundary);
            } else if !last.is_boundary {
                assert(no_boundary_before(items, items.len() as int));
            }
            if last.is_boundary {
                assert(items[items.len() - 1].is_boundary);
            }
        } else {
            assert(!no_boundary_before(items, items.len() as int)) by {
                let i = choose|i: int|
                    0 <= i < items.len() - 1 && (#[trigger] items[i]).is_boundary;
                assert(items[i].is_boundary);
            }
            let i = choose|i: int| 0 <= i < items.len() - 1 && (#[trigger] items[i]).is_boundary;
            assert(rest[i].is_boundary);
            if no_boundary_before(rest, rest.len() - 1) {
                assert(i == rest.len() - 1);
            }
        }
    }
}

/// A copy stream whose data the application takes is completed if and only if it
/// ends in its only boundary and no LSN lies beyond that boundary. The copy then
/// stands at the boundary's LSN and counts every item but the boundary. Any other
/// stream ends in an error.
pub proof fn copy_completes_at_its_boundary(items: Seq<CopyItem>)
    requires
        items.len() < i64::MAX,
    ensures
        is_complete_copy(items) ==> after_copy_items(items).next(CopyEvent::StreamEnded) == (
        CopyPhase::Completing { count: (items.len() - 1) as i64, progress: items.last().lsn }),
        !is_complete_copy(items) ==> after_copy_items(items).next(CopyEvent::StreamEnded)
            == CopyPhase::Finished,
        !is_complete_copy(items) && after_copy_items(items) is Receiving ==> {
            let refusal = after_copy_items(items).refusal(CopyEvent::StreamEnded);
            refusal == Some(
                if items.len() > 0 && items.last().is_boundary {
                    ReceiverError::DataBeyondBoundary
                } else {
                    ReceiverError::BoundaryMissing
                },
            )
        },
{
    lemma_after_copy_items(items);
    if items.len() > 0 {
        assert(items[items.len() - 1] == items.last());
        if no_boundary_before(items, items.len() - 1) {
            if !items.last().is_boundary {
                assert(no_boundary_before(items, items.len() as int));
            }
        }
    }
}

/// The copy counts as progress only once the application has acknowledged its
/// completion; until then no event of the copy stream changes the receiver.
pub proof fn copy_progress_waits_for_completion(
    receiver: ReceiverView,
    phase: CopyPhase,
    event: CopyEvent,
)
    requires
        phase.spec_expects(event),
    ensures
        event != CopyEvent::CompletionDone(true) ==> receiver.after_copy(phase, event) == receiver,
        event == CopyEvent::CompletionDone(true) ==> receiver.after_copy(phase, event)
            == receiver.with_progress(
            phase->AwaitingCompletion_progress,
            phase->AwaitingCompletion_progress,
        ),
{
}

} // verus!
