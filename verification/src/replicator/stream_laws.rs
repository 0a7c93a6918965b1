//! What the streams of a secondary do with what comes over them.

use vstd::prelude::*;

use crate::replicator::payload;
use crate::replicator::receiver::{
    self, CopyAction, CopyEvent, CopyItem, CopyPhase, CopyTally, PartitionProgress, ProviderReply,
    RawOperation, ReceiverError, ReceiverView, ReplicationAction, ReplicationEvent,
    ReplicationPhase,
};
use crate::replicator::secondary::{ReplicationItem, SecondaryView};
use crate::replicator::secondary_laws;
use crate::text;
use crate::types::{Epoch, Lsn};

verus! {

/// What a receiver starts with in either mode, and what it has at all.
pub proof fn modes_differ_in_all_that_they_offer(
    state: SecondaryView,
    progress: PartitionProgress,
)
    ensures
        ({
            let volatile = ReceiverView::volatile(state);
            &&& volatile.state == state
            &&& volatile.partition is None
            &&& !volatile.forwards && !volatile.copy_available && !volatile.has_provider
        }),
        ({
            let persisted = ReceiverView::persisted(state, progress);
            &&& persisted.state == state
            &&& persisted.partition == Some(progress)
            &&& persisted.forwards && persisted.copy_available && persisted.has_provider
        }),
{
}

/// Whether two receivers differ in their log and progress at most.
pub open spec fn offers_the_same(one: ReceiverView, other: ReceiverView) -> bool {
    &&& one.forwards == other.forwards
    &&& one.copy_available == other.copy_available
    &&& one.has_provider == other.has_provider
    &&& one.partition is Some == other.partition is Some
}

/// Whether published progress, if there is any, has been raised to `lsn` and `committed`
/// where it was lower.
pub open spec fn is_raised(before: ReceiverView, after: ReceiverView, lsn: Lsn, committed: Lsn) -> bool {
    &&& before.partition is Some == after.partition is Some
    &&& before.partition is Some ==> {
        let old_progress = before.partition->Some_0;
        let new_progress = after.partition->Some_0;
        &&& secondary_laws::is_greater(
            new_progress.current_progress,
            old_progress.current_progress,
            lsn,
        )
        &&& secondary_laws::is_greater(
            new_progress.committed_lsn,
            old_progress.committed_lsn,
            committed,
        )
    }
}

/// Counting an operation raises the published progress to its LSN and to the committed LSN
/// that came with it, and changes nothing else.
pub proof fn counted_operations_raise_progress(before: ReceiverView, lsn: Lsn, committed: Lsn)
    ensures
        is_raised(before, before.with_progress(lsn, committed), lsn, committed),
        offers_the_same(before, before.with_progress(lsn, committed)),
        before.with_progress(lsn, committed).state == before.state,
{
}

/// An epoch change of a receiver is one of its log alone.
pub proof fn epoch_changes_concern_the_log_alone(before: ReceiverView, epoch: Epoch)
    ensures
        before.with_epoch(epoch).state == before.state.with_epoch(epoch),
        before.with_epoch(epoch).partition == before.partition,
        offers_the_same(before, before.with_epoch(epoch)),
{
}

/// Whether an item is of an older epoch than `epoch`.
pub open spec fn is_stale(item: ReplicationItem, epoch: Epoch) -> bool {
    item.epoch_data_loss < epoch.data_loss_number || item.epoch_data_loss == epoch.data_loss_number
        && item.epoch_config < epoch.configuration_number
}

/// A stale item ends its stream with a refusal that names both epochs, and the receiver
/// stays as it is.
pub proof fn stale_arrivals_end_the_stream(
    before: ReceiverView,
    item: ReplicationItem,
    action: ReplicationAction,
)
    requires
        is_stale(item, before.state.epoch),
        receiver::asks_for(
            before.replication_phase(ReplicationPhase::Receiving, ReplicationEvent::Item(item)),
            receiver::event_data(ReplicationEvent::Item(item)),
            before.refusal(ReplicationEvent::Item(item)),
            action,
        ),
    ensures
        before.replication_phase(ReplicationPhase::Receiving, ReplicationEvent::Item(item))
            == ReplicationPhase::Stopped,
        before.after_replication(ReplicationPhase::Receiving, ReplicationEvent::Item(item))
            == before,
        action matches ReplicationAction::Stop { refusal: Some(stale) } && {
            &&& stale.got.data_loss_number == item.epoch_data_loss
            &&& stale.got.configuration_number == item.epoch_config
            &&& stale.current == before.state.epoch
        },
{
}

/// Any other item is logged when it arrives. In persisted mode it goes to the application
/// with its LSN and its payload, and progress is left alone. In volatile mode it counts at
/// once and is acknowledged to the primary by its LSN.
pub proof fn arrivals_are_logged_and_handed_on(
    before: ReceiverView,
    item: ReplicationItem,
    action: ReplicationAction,
)
    requires
        !is_stale(item, before.state.epoch),
        receiver::asks_for(
            before.replication_phase(ReplicationPhase::Receiving, ReplicationEvent::Item(item)),
            receiver::event_data(ReplicationEvent::Item(item)),
            before.refusal(ReplicationEvent::Item(item)),
            action,
        ),
    ensures
        ({
            let arrival = ReplicationEvent::Item(item);
            let after = before.after_replication(ReplicationPhase::Receiving, arrival);
            &&& after.state == before.state.after_item(item)
            &&& after.state.log.contains_key(item.lsn) && after.state.log[item.lsn] == item.data@
            &&& offers_the_same(before, after)
            &&& before.forwards ==> {
                &&& after.partition == before.partition
                &&& before.replication_phase(ReplicationPhase::Receiving, arrival) is Forwarding
                &&& action matches ReplicationAction::Forward(operation)
                &&& operation.lsn == item.lsn
                &&& payload::contents(operation.data) == item.data@
            }
            &&& !before.forwards ==> {
                &&& is_raised(before, after, item.lsn, item.committed_lsn)
                &&& before.replication_phase(ReplicationPhase::Receiving, arrival) is Acknowledging
                &&& action matches ReplicationAction::SendAck(ack) && ack.lsn == item.lsn
            }
        }),
{
}

/// In persisted mode an item that was forwarded is waited for, and once the application has
/// acknowledged it, and not before, progress is raised to what came with the item and the
/// primary is sent the LSN of the item. Then the next item is received.
pub proof fn forwarded_items_are_acknowledged_once_applied(
    before: ReceiverView,
    item: ReplicationItem,
    waiting: ReplicationAction,
    acknowledging: ReplicationAction,
    receiving: ReplicationAction,
)
    requires
        !is_stale(item, before.state.epoch),
        before.forwards,
        ({
            let p0 = ReplicationPhase::Receiving;
            let r1 = before.after_replication(p0, ReplicationEvent::Item(item));
            let p1 = before.replication_phase(p0, ReplicationEvent::Item(item));
            let r2 = r1.after_replication(p1, ReplicationEvent::Forwarded(true));
            let p2 = r1.replication_phase(p1, ReplicationEvent::Forwarded(true));
            let r3 = r2.after_replication(p2, ReplicationEvent::ApplicationDone(true));
            let p3 = r2.replication_phase(p2, ReplicationEvent::ApplicationDone(true));
            let p4 = r3.replication_phase(p3, ReplicationEvent::AckSent(true));
            &&& receiver::asks_for(p2, Seq::empty(), None, waiting)
            &&& receiver::asks_for(p3, Seq::empty(), None, acknowledging)
            &&& receiver::asks_for(p4, Seq::empty(), None, receiving)
        }),
    ensures
        ({
            let p0 = ReplicationPhase::Receiving;
            let r1 = before.after_replication(p0, ReplicationEvent::Item(item));
            let p1 = before.replication_phase(p0, ReplicationEvent::Item(item));
            let r2 = r1.after_replication(p1, ReplicationEvent::Forwarded(true));
            let p2 = r1.replication_phase(p1, ReplicationEvent::Forwarded(true));
            let r3 = r2.after_replication(p2, ReplicationEvent::ApplicationDone(true));
            let p3 = r2.replication_phase(p2, ReplicationEvent::ApplicationDone(true));
            let r4 = r3.after_replication(p3, ReplicationEvent::AckSent(true));
            let p4 = r3.replication_phase(p3, ReplicationEvent::AckSent(true));
            &&& waiting is AwaitApplication
            &&& r2 == r1
            &&& is_raised(r2, r3, item.lsn, item.committed_lsn)
            &&& r3.state == r1.state
            &&& offers_the_same(r3, before)
            &&& acknowledging matches ReplicationAction::SendAck(ack) && ack.lsn == item.lsn
            &&& r4 == r3
            &&& p4 == ReplicationPhase::Receiving
            &&& receiving is Receive
        }),
{
}

/// In volatile mode, too, the next item is received once the acknowledgement is sent.
pub proof fn acknowledged_items_are_followed_by_the_next(before: ReceiverView, lsn: Lsn)
    ensures
        before.replication_phase(
            ReplicationPhase::Acknowledging { lsn },
            ReplicationEvent::AckSent(true),
        ) == ReplicationPhase::Receiving,
        before.after_replication(
            ReplicationPhase::Acknowledging { lsn },
            ReplicationEvent::AckSent(true),
        ) == before,
{
}

/// Whether `event` says that a peer is gone or that there is nothing more to come.
pub open spec fn is_end(event: ReplicationEvent) -> bool {
    ||| event is StreamFailed
    ||| event is StreamEnded
    ||| event == ReplicationEvent::Forwarded(false)
    ||| event == ReplicationEvent::ApplicationDone(false)
    ||| event == ReplicationEvent::AckSent(false)
}

/// A stream ends when it fails or ends itself and when the application or the primary is
/// gone. That refuses nothing, acknowledges nothing and leaves the receiver as it is.
pub proof fn streams_end_without_a_trace(
    before: ReceiverView,
    phase: ReplicationPhase,
    event: ReplicationEvent,
    action: ReplicationAction,
)
    requires
        phase.spec_expects(event),
        is_end(event),
        receiver::asks_for(
            before.replication_phase(phase, event),
            receiver::event_data(event),
            before.refusal(event),
            action,
        ),
    ensures
        before.after_replication(phase, event) == before,
        before.replication_phase(phase, event) == ReplicationPhase::Stopped,
        action == (ReplicationAction::Stop { refusal: None }),
{
}

/// Each phase of a replication stream expects what answers its last action, and a stopped
/// stream expects nothing.
pub proof fn streams_expect_what_they_asked_for(
    phase: ReplicationPhase,
    item: ReplicationItem,
    done: bool,
)
    ensures
        phase.spec_expects(ReplicationEvent::Item(item)) <==> phase is Receiving,
        phase.spec_expects(ReplicationEvent::StreamFailed) <==> phase is Receiving,
        phase.spec_expects(ReplicationEvent::StreamEnded) <==> phase is Receiving,
        phase.spec_expects(ReplicationEvent::Forwarded(done)) <==> phase is Forwarding,
        phase.spec_expects(ReplicationEvent::ApplicationDone(done)) <==> phase is AwaitingApplication,
        phase.spec_expects(ReplicationEvent::AckSent(done)) <==> phase is Acknowledging,
{
}

/// The copy stream can be taken once: the first to begin a copy has it with nothing
/// counted yet, where there is one at all, and everyone after is refused.
pub proof fn copies_begin_at_most_once(before: ReceiverView)
    ensures
        before.copy_available ==> (before.copy_begun() matches Ok(CopyPhase::Receiving(tally))
            && tally.count == 0 && tally.progress is None && tally.boundary is None),
        !before.copy_available ==> before.copy_begun() == Err::<CopyPhase, ReceiverError>(
            ReceiverError::CopyUnavailable,
        ),
        before.with_copy_taken().copy_begun() is Err,
        before.with_copy_taken().state == before.state,
        before.with_copy_taken().partition == before.partition,
        before.with_copy_taken().forwards == before.forwards,
        before.with_copy_taken().has_provider == before.has_provider,
{
}

/// An item of a copy goes to the application with its LSN and its payload, unless it is the
/// boundary, after which the end of the stream is waited for. An item after the boundary
/// ends the copy with an error.
pub proof fn copied_items_reach_the_application(
    tally: CopyTally,
    item: CopyItem,
    action: CopyAction,
)
    requires
        CopyPhase::Receiving(tally).asks_for(CopyEvent::Item(item), action),
    ensures
        tally.boundary is Some ==> action == CopyAction::Fail(ReceiverError::ItemAfterBoundary)
            && CopyPhase::Receiving(tally).next(CopyEvent::Item(item)) == CopyPhase::Finished,
        tally.boundary is None && !item.is_boundary ==> {
            &&& action matches CopyAction::Deliver(operation)
            &&& operation.lsn == item.lsn
            &&& payload::contents(operation.data) == item.data@
            &&& CopyPhase::Receiving(tally).next(CopyEvent::Item(item)) is Delivering
        },
        tally.boundary is None && item.is_boundary ==> action is Receive
            && CopyPhase::Receiving(tally).next(CopyEvent::Item(item)) is Receiving,
{
}

/// What an item and its delivery do to the tally: the highest LSN is kept, a boundary is
/// remembered by its LSN, and an item counts once the application has taken it.
pub proof fn tallies_count_what_was_taken(tally: CopyTally, item: CopyItem)
    requires
        tally.boundary is None,
        tally.count < i64::MAX,
    ensures
        ({
            let next = CopyPhase::Receiving(tally).next(CopyEvent::Item(item));
            let counted = if item.is_boundary {
                next->Receiving_0
            } else {
                next->Delivering_0
            };
            let taken = CopyPhase::Delivering(counted).next(CopyEvent::Delivered(true));
            &&& counted.count == tally.count
            &&& counted.progress matches Some(highest) && (match tally.progress {
                Some(before) => secondary_laws::is_greater(highest, before, item.lsn),
                None => highest == item.lsn,
            })
            &&& item.is_boundary <==> counted.boundary is Some
            &&& item.is_boundary ==> counted.boundary == Some(item.lsn)
            &&& taken matches CopyPhase::Receiving(after) && after.count == counted.count + 1
                && after.progress == counted.progress && after.boundary == counted.boundary
        }),
{
}

/// How a copy comes to its end. The application is told that it is complete at the LSN of
/// the boundary, and is waited for. Once it has acknowledged, both watermarks of the
/// published progress are raised to that LSN, and the response counts the items taken.
pub proof fn completed_copies_count_up_to_their_boundary(
    before: ReceiverView,
    count: i64,
    lsn: Lsn,
    telling: CopyAction,
    waiting: CopyAction,
    responding: CopyAction,
)
    requires
        ({
            let tally = CopyTally { count, progress: Some(lsn), boundary: Some(lsn) };
            let p0 = CopyPhase::Receiving(tally);
            let p1 = p0.next(CopyEvent::StreamEnded);
            let p2 = p1.next(CopyEvent::CompletionSent(true));
            &&& p0.asks_for(CopyEvent::StreamEnded, telling)
            &&& p1.asks_for(CopyEvent::CompletionSent(true), waiting)
            &&& p2.asks_for(CopyEvent::CompletionDone(true), responding)
        }),
    ensures
        ({
            let tally = CopyTally { count, progress: Some(lsn), boundary: Some(lsn) };
            let p0 = CopyPhase::Receiving(tally);
            let r1 = before.after_copy(p0, CopyEvent::StreamEnded);
            let p1 = p0.next(CopyEvent::StreamEnded);
            let r2 = r1.after_copy(p1, CopyEvent::CompletionSent(true));
            let p2 = p1.next(CopyEvent::CompletionSent(true));
            let r3 = r2.after_copy(p2, CopyEvent::CompletionDone(true));
            &&& telling == (CopyAction::SendCompletion { lsn })
            &&& waiting is AwaitCompletion
            &&& r2 == before
            &&& is_raised(before, r3, lsn, lsn)
            &&& r3.state == before.state
            &&& offers_the_same(before, r3)
            &&& responding == (CopyAction::Respond { items_received: count })
            &&& p2.next(CopyEvent::CompletionDone(true)) == CopyPhase::Finished
        }),
{
}

/// A copy that cannot go on fails with an error that says why, and leaves the receiver as
/// it is: a broken stream with its own reason, an end without a boundary or with data
/// beyond it, an application that takes no more data or no completion, or drops that.
pub proof fn failed_copies_say_why(
    before: ReceiverView,
    phase: CopyPhase,
    event: CopyEvent,
    action: CopyAction,
    reason: String,
)
    requires
        phase.spec_expects(event),
        phase.asks_for(event, action),
    ensures
        event == CopyEvent::StreamFailed(reason) ==> action == CopyAction::Fail(
            ReceiverError::StreamFailed(reason),
        ),
        event is StreamEnded && phase->Receiving_0.boundary is None ==> action == CopyAction::Fail(
            ReceiverError::BoundaryMissing,
        ),
        event is StreamEnded && phase->Receiving_0.boundary is Some && phase->Receiving_0.progress
            != phase->Receiving_0.boundary ==> action == CopyAction::Fail(
            ReceiverError::DataBeyondBoundary,
        ),
        event == CopyEvent::Delivered(false) || event == CopyEvent::CompletionSent(false) ==> action
            == CopyAction::Fail(ReceiverError::CopyReceiverClosed),
        event == CopyEvent::CompletionDone(false) ==> action == CopyAction::Fail(
            ReceiverError::CopyNotCompleted,
        ),
        action is Fail ==> phase.next(event) == CopyPhase::Finished && before.after_copy(
            phase,
            event,
        ) == before,
        event == CopyEvent::Delivered(true) ==> action is Receive,
        phase is Delivering || phase is Completing || phase is Receiving ==> before.after_copy(
            phase,
            event,
        ) == before,
{
}

/// Each phase of a copy expects what answers its last action, and a finished copy expects
/// nothing.
pub proof fn copies_expect_what_they_asked_for(
    phase: CopyPhase,
    item: CopyItem,
    reason: String,
    done: bool,
)
    ensures
        phase.spec_expects(CopyEvent::Item(item)) <==> phase is Receiving,
        phase.spec_expects(CopyEvent::StreamFailed(reason)) <==> phase is Receiving,
        phase.spec_expects(CopyEvent::StreamEnded) <==> phase is Receiving,
        phase.spec_expects(CopyEvent::Delivered(false)) <==> phase is Delivering,
        phase.spec_expects(CopyEvent::Delivered(true)) <==> phase is Delivering
            && phase->Delivering_0.count < i64::MAX,
        phase.spec_expects(CopyEvent::CompletionSent(done)) <==> phase is Completing,
        phase.spec_expects(CopyEvent::CompletionDone(done)) <==> phase is AwaitingCompletion,
{
}

/// A copy context is empty without a state provider. With one it has the operations of the
/// provider, all of them in order with LSN and payload, or fails with an error that says
/// why there are none.
pub proof fn copy_contexts_are_those_of_the_provider(
    before: ReceiverView,
    reply: ProviderReply,
    answer: Result<Vec<RawOperation>, ReceiverError>,
    reason: String,
)
    requires
        before.answers_context(reply, answer),
    ensures
        !before.has_provider ==> answer is Ok && answer->Ok_0@.len() == 0,
        before.has_provider && reply is Operations ==> {
            let given = reply->Operations_0@;
            &&& answer is Ok
            &&& answer->Ok_0@.len() == given.len()
            &&& forall|i: int|
                0 <= i < given.len() ==> (#[trigger] answer->Ok_0@[i]).lsn == given[i].lsn
                    && answer->Ok_0@[i].data@ == payload::contents(given[i].data)
        },
        before.has_provider && reply is Closed ==> answer == Err::<
            Vec<RawOperation>,
            ReceiverError,
        >(ReceiverError::ProviderClosed),
        before.has_provider && reply is Dropped ==> answer == Err::<
            Vec<RawOperation>,
            ReceiverError,
        >(ReceiverError::ProviderReplyDropped),
        before.has_provider && reply == ProviderReply::Failed(reason) ==> answer == Err::<
            Vec<RawOperation>,
            ReceiverError,
        >(ReceiverError::ProviderFailed(reason)),
{
}

/// A peer that is behind the times is told so by a failed precondition, one that sends a
/// malformed copy by an invalid argument, and everything else is internal.
pub proof fn errors_tell_whose_fault_it_is(error: ReceiverError)
    ensures
        error.spec_code() is FailedPrecondition <==> error is Stale || error is CopyUnavailable,
        error.spec_code() is InvalidArgument <==> error is ItemAfterBoundary
            || error is BoundaryMissing || error is DataBeyondBoundary,
        error is CopyReceiverClosed || error is CopyNotCompleted || error is StreamFailed
            || error is ProviderClosed || error is ProviderReplyDropped || error is ProviderFailed
            ==> error.spec_code() is Internal,
{
}

/// An error that carries a reason has that as its message, and the message of a stale epoch
/// has the numbers of the refused epoch before those of the current one.
pub proof fn messages_carry_what_is_known(
    reason: String,
    got: Epoch,
    current: Epoch,
)
    ensures
        ReceiverError::StreamFailed(reason).spec_message() == reason@,
        ReceiverError::ProviderFailed(reason).spec_message() == reason@,
        ReceiverError::Stale(
            crate::replicator::secondary::StaleEpoch { got, current },
        ).spec_message() == "stale epoch: got Epoch { data_loss_number: "@ + text::decimal(
            got.data_loss_number as int,
        ) + ", configuration_number: "@ + text::decimal(got.configuration_number as int)
            + " }, current Epoch { data_loss_number: "@ + text::decimal(
            current.data_loss_number as int,
        ) + ", configuration_number: "@ + text::decimal(current.configuration_number as int)
            + " }"@,
{
    reveal_strlit("stale epoch: got ");
    reveal_strlit("Epoch { data_loss_number: ");
    reveal_strlit("stale epoch: got Epoch { data_loss_number: ");
    reveal_strlit(" }");
    reveal_strlit(", current ");
    reveal_strlit(" }, current Epoch { data_loss_number: ");
    let stale = crate::replicator::secondary::StaleEpoch { got, current };
    let a = text::decimal(got.data_loss_number as int);
    let b = text::decimal(got.configuration_number as int);
    let c = text::decimal(current.data_loss_number as int);
    let d = text::decimal(current.configuration_number as int);
    let middle = ", configuration_number: "@;
    assert("stale epoch: got "@ + "Epoch { data_loss_number: "@
        =~= "stale epoch: got Epoch { data_loss_number: "@);
    assert(" }"@ + ", current "@ + "Epoch { data_loss_number: "@
        =~= " }, current Epoch { data_loss_number: "@);
    assert(ReceiverError::Stale(stale).spec_message() =~= ("stale epoch: got "@
        + "Epoch { data_loss_number: "@) + a + middle + b + (" }"@ + ", current "@
        + "Epoch { data_loss_number: "@) + c + middle + d + " }"@);
}

} // verus!
