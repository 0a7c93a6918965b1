//! What a settled status says, field by field, and what an event reports of it.

use vstd::prelude::*;
use vstd::utf8::*;

use crate::maintenance::api::{
    self, AffectedSet, Condition, ConditionView, MaintenanceBlockedReason,
    MaintenanceDesiredState, MaintenancePhase, NodeMaintenanceRequestSpec,
    NodeMaintenanceRequestStatus, NodeRef, SpecView, StatusView,
};
use crate::maintenance::laws;
use crate::maintenance::observability::{self, Event, EventType};
use crate::maintenance::status;
use crate::text;
use crate::text_laws;

verus! {

/// Statuses and events name each desired state, phase and reason by its variant.
pub proof fn names_are_those_of_the_variants()
    ensures
        MaintenanceDesiredState::Prepare.spec_name() == "Prepare"@,
        MaintenanceDesiredState::Complete.spec_name() == "Complete"@,
        MaintenanceDesiredState::Cancel.spec_name() == "Cancel"@,
        MaintenancePhase::Requested.spec_name() == "Requested"@,
        MaintenancePhase::Preparing.spec_name() == "Preparing"@,
        MaintenancePhase::Prepared.spec_name() == "Prepared"@,
        MaintenancePhase::Blocked.spec_name() == "Blocked"@,
        MaintenancePhase::Failed.spec_name() == "Failed"@,
        MaintenancePhase::Expired.spec_name() == "Expired"@,
        MaintenancePhase::Releasing.spec_name() == "Releasing"@,
        MaintenancePhase::Released.spec_name() == "Released"@,
        MaintenanceBlockedReason::DeadlineExceeded.spec_name() == "DeadlineExceeded"@,
        MaintenanceBlockedReason::InvalidDeadline.spec_name() == "InvalidDeadline"@,
        MaintenanceBlockedReason::BlockedByQuorum.spec_name() == "BlockedByQuorum"@,
        MaintenanceBlockedReason::NoEligibleTarget.spec_name() == "NoEligibleTarget"@,
        MaintenanceBlockedReason::NodeNotFound.spec_name() == "NodeNotFound"@,
        MaintenanceBlockedReason::NodeIncarnationChanged.spec_name() == "NodeIncarnationChanged"@,
        MaintenanceBlockedReason::NodeNotReady.spec_name() == "NodeNotReady"@,
        MaintenanceBlockedReason::ConflictingOperation.spec_name() == "ConflictingOperation"@,
        MaintenanceBlockedReason::ReplicaRecoveryIncomplete.spec_name()
            == "ReplicaRecoveryIncomplete"@,
{
}

/// A plain request asks for the preparation of its node, which is to return with its
/// replicas, and for nothing else.
pub proof fn plain_requests_ask_for_preparation(node_name: Seq<char>)
    ensures
        ({
            let plain = SpecView::plain(node_name);
            &&& plain.node_name == node_name
            &&& plain.desired_state is Prepare
            &&& plain.node_recovery is Return
            &&& plain.replica_recovery is Preserve
            &&& plain.release_node_uid is None
            &&& plain.not_before is None && plain.deadline is None
            &&& plain.provider is None && plain.provider_event_id is None
        }),
{
}

/// Two requests ask for the same if and only if they agree in every field.
pub proof fn requests_are_the_same_field_by_field(
    a: NodeMaintenanceRequestSpec,
    b: NodeMaintenanceRequestSpec,
)
    ensures
        a@ == b@ <==> {
            &&& a.node_name@ == b.node_name@
            &&& a.node_recovery == b.node_recovery
            &&& a.replica_recovery == b.replica_recovery
            &&& a.desired_state == b.desired_state
            &&& text::opt_text(a.provider) == text::opt_text(b.provider)
            &&& text::opt_text(a.provider_event_id) == text::opt_text(b.provider_event_id)
            &&& text::opt_text(a.not_before) == text::opt_text(b.not_before)
            &&& text::opt_text(a.deadline) == text::opt_text(b.deadline)
            &&& text::opt_text(a.release_node_uid) == text::opt_text(b.release_node_uid)
        },
{
}

/// Two affected sets are the same if and only if they agree in every field.
pub proof fn sets_are_the_same_field_by_field(a: AffectedSet, b: AffectedSet)
    ensures
        a@ == b@ <==> {
            &&& a.namespace@ == b.namespace@
            &&& a.name@ == b.name@
            &&& a.hosts_primary == b.hosts_primary
            &&& a.primary_moved == b.primary_moved
            &&& a.quorum_without_node == b.quorum_without_node
            &&& a.pod_uids@.len() == b.pod_uids@.len()
            &&& forall|i: int|
                0 <= i < a.pod_uids@.len() ==> (#[trigger] a.pod_uids@[i])@ == b.pod_uids@[i]@
        },
{
    let one = text::texts(a.pod_uids@);
    let other = text::texts(b.pod_uids@);
    if a@ == b@ {
        assert(one.len() == other.len());
        assert forall|i: int| 0 <= i < a.pod_uids@.len() implies (#[trigger] a.pod_uids@[i])@
            == b.pod_uids@[i]@ by {
            assert(one[i] == other[i]);
        }
    }
    if a.pod_uids@.len() == b.pod_uids@.len() && forall|i: int|
        0 <= i < a.pod_uids@.len() ==> (#[trigger] a.pod_uids@[i])@ == b.pod_uids@[i]@ {
        assert(one =~= other);
    }
}

/// Two conditions are the same if and only if they agree in every field.
pub proof fn conditions_are_the_same_field_by_field(a: Condition, b: Condition)
    ensures
        a@ == b@ <==> {
            &&& a.type_@ == b.type_@
            &&& a.status@ == b.status@
            &&& a.reason@ == b.reason@
            &&& a.message@ == b.message@
            &&& a.observed_generation == b.observed_generation
            &&& a.last_transition_time@ == b.last_transition_time@
        },
{
}

/// Two statuses report the same if and only if they agree in every field, with the same
/// sets and conditions in the same order.
pub proof fn statuses_are_the_same_field_by_field(
    a: NodeMaintenanceRequestStatus,
    b: NodeMaintenanceRequestStatus,
)
    ensures
        a@ == b@ <==> {
            &&& a.phase == b.phase
            &&& a.observed_generation == b.observed_generation
            &&& a.observed_desired_state == b.observed_desired_state
            &&& text::opt_text(a.node_uid) == text::opt_text(b.node_uid)
            &&& text::opt_text(a.prepared_at) == text::opt_text(b.prepared_at)
            &&& text::opt_text(a.released_at) == text::opt_text(b.released_at)
            &&& text::opt_text(a.released_node_uid) == text::opt_text(b.released_node_uid)
            &&& a.blocked_reason == b.blocked_reason
            &&& text::opt_text(a.message) == text::opt_text(b.message)
            &&& have_the_same_sets(a.affected_sets@, b.affected_sets@)
            &&& have_the_same_sets(a.prepared_sets@, b.prepared_sets@)
            &&& a.conditions@.len() == b.conditions@.len()
            &&& forall|i: int|
                0 <= i < a.conditions@.len() ==> (#[trigger] a.conditions@[i])@ == b.conditions@[i]@
        },
{
    lemma_same_sets(a.affected_sets@, b.affected_sets@);
    lemma_same_sets(a.prepared_sets@, b.prepared_sets@);
    let one = api::condition_views(a.conditions@);
    let other = api::condition_views(b.conditions@);
    if a@ == b@ {
        assert(one.len() == other.len());
        assert forall|i: int| 0 <= i < a.conditions@.len() implies (#[trigger] a.conditions@[i])@
            == b.conditions@[i]@ by {
            assert(one[i] == other[i]);
        }
    }
    if a.conditions@.len() == b.conditions@.len() && forall|i: int|
        0 <= i < a.conditions@.len() ==> (#[trigger] a.conditions@[i])@ == b.conditions@[i]@ {
        assert(one =~= other);
    }
}

/// Whether two lists have the same sets in the same order.
pub open spec fn have_the_same_sets(a: Seq<AffectedSet>, b: Seq<AffectedSet>) -> bool {
    a.len() == b.len() && forall|i: int| 0 <= i < a.len() ==> (#[trigger] a[i])@ == b[i]@
}

proof fn lemma_same_sets(a: Seq<AffectedSet>, b: Seq<AffectedSet>)
    ensures
        api::set_views(a) == api::set_views(b) <==> have_the_same_sets(a, b),
{
    let one = api::set_views(a);
    let other = api::set_views(b);
    if one == other {
        assert(one.len() == other.len());
        assert forall|i: int| 0 <= i < a.len() implies (#[trigger] a[i])@ == b[i]@ by {
            assert(one[i] == other[i]);
        }
    }
    if have_the_same_sets(a, b) {
        assert(one =~= other);
    }
}

/// A request keeps primaries off its node from the time when it is taken up until it is
/// released, and a phase in which it is stuck comes with a reason.
pub proof fn phases_exclude_until_released(phase: MaintenancePhase)
    ensures
        phase is Preparing || phase is Prepared || phase is Blocked || phase is Failed
            || phase is Expired || phase is Releasing ==> phase.spec_excludes_primary_placement(),
        phase is Requested || phase is Released ==> !phase.spec_excludes_primary_placement(),
        phase is Blocked || phase is Failed || phase is Expired ==> phase.spec_requires_reason(),
        phase is Requested || phase is Preparing || phase is Prepared || phase is Releasing
            || phase is Released ==> !phase.spec_requires_reason(),
{
}

/// A request that nothing was done about is requested and has nothing recorded.
pub proof fn fresh_statuses_record_nothing()
    ensures
        ({
            let fresh = StatusView::initial();
            &&& fresh.phase is Requested
            &&& fresh.observed_generation is None && fresh.observed_desired_state is None
            &&& fresh.node_uid is None && fresh.released_node_uid is None
            &&& fresh.prepared_at is None && fresh.released_at is None
            &&& fresh.blocked_reason is None && fresh.message is None
            &&& fresh.affected_sets.len() == 0 && fresh.prepared_sets.len() == 0
            &&& fresh.conditions.len() == 0
        }),
{
}

/// Settling sets phase, reason and message as they are given. The time of preparation is
/// there if and only if the request is prepared, and then is the one that was there, if
/// any. Everything else but the conditions stays.
pub proof fn settling_sets_what_is_given(
    before: StatusView,
    phase: MaintenancePhase,
    reason: Option<MaintenanceBlockedReason>,
    message: Option<Seq<char>>,
    now: Seq<char>,
)
    ensures
        ({
            let after = before.finished(phase, reason, message, now);
            &&& after.phase == phase
            &&& after.blocked_reason == reason
            &&& after.message == message
            &&& phase != MaintenancePhase::Prepared ==> after.prepared_at is None
            &&& phase == MaintenancePhase::Prepared && before.prepared_at is None
                ==> after.prepared_at == Some(now)
            &&& phase == MaintenancePhase::Prepared && before.prepared_at is Some
                ==> after.prepared_at == before.prepared_at
            &&& after.observed_generation == before.observed_generation
            &&& after.observed_desired_state == before.observed_desired_state
            &&& after.node_uid == before.node_uid
            &&& after.affected_sets == before.affected_sets
            &&& after.prepared_sets == before.prepared_sets
            &&& after.released_at == before.released_at
            &&& after.released_node_uid == before.released_node_uid
        }),
{
}

/// Whether `condition` reports a request in `phase` with the given reason and message.
pub open spec fn reports_preparation(
    condition: ConditionView,
    phase: MaintenancePhase,
    reason: Option<MaintenanceBlockedReason>,
    message: Option<Seq<char>>,
    generation: Option<i64>,
) -> bool {
    &&& condition.type_ == "KubericPrepared"@
    &&& phase == MaintenancePhase::Prepared ==> condition.status == "True"@ && condition.reason
        == "PrimariesMovedAndQuorumVerified"@
    &&& phase != MaintenancePhase::Prepared ==> condition.status == "False"@
    &&& phase != MaintenancePhase::Prepared && reason is Some ==> condition.reason
        == reason->Some_0.spec_name()
    &&& phase != MaintenancePhase::Prepared && reason is None ==> condition.reason
        == phase.spec_name()
    &&& message is Some ==> condition.message == message->Some_0
    &&& message is None ==> condition.message == ""@
    &&& condition.observed_generation == generation
}

/// Settling reports preparation in one condition, at `p`: the first of its type, or a new
/// last one. The time of its last transition is kept if and only if its status is the same
/// as before. Every other condition stays where and as it is.
pub proof fn settling_replaces_one_condition(
    before: StatusView,
    phase: MaintenancePhase,
    reason: Option<MaintenanceBlockedReason>,
    message: Option<Seq<char>>,
    now: Seq<char>,
) -> (p: int)
    ensures
        ({
            let was = before.conditions;
            let is = before.finished(phase, reason, message, now).conditions;
            &&& 0 <= p <= was.len()
            &&& forall|i: int| 0 <= i < p ==> (#[trigger] was[i]).type_ != "KubericPrepared"@
            &&& p < was.len() ==> was[p].type_ == "KubericPrepared"@ && is.len() == was.len()
            &&& p == was.len() ==> is.len() == was.len() + 1
            &&& forall|i: int| 0 <= i < was.len() && i != p ==> #[trigger] is[i] == was[i]
            &&& reports_preparation(is[p], phase, reason, message, before.observed_generation)
            &&& p < was.len() && was[p].status == is[p].status ==> is[p].last_transition_time
                == was[p].last_transition_time
            &&& p == was.len() || was[p].status != is[p].status ==> is[p].last_transition_time
                == now
        }),
{
    laws::lemma_position_of_type(before.conditions, "KubericPrepared"@);
    status::position_of_type(before.conditions, "KubericPrepared"@)
}

/// A reconcile is worth an event if and only if its status was written and has another
/// phase or another reason than before.
pub proof fn events_are_for_written_changes(
    before: StatusView,
    after: StatusView,
    persisted: bool,
)
    ensures
        observability::is_transition(before, after, persisted) ==> persisted,
        persisted && before.phase != after.phase ==> observability::is_transition(
            before,
            after,
            persisted,
        ),
        persisted && before.blocked_reason != after.blocked_reason ==> observability::is_transition(
            before,
            after,
            persisted,
        ),
        before.phase == after.phase && before.blocked_reason == after.blocked_reason
            ==> !observability::is_transition(before, after, persisted),
{
}

/// An event warns if and only if the request is stuck or has a reason not to advance. It
/// is about releasing the node from the time on when that is tried, and about preparing it
/// before. It names how a request was released, or what blocks it, or else its phase.
pub proof fn events_say_what_happened(event: Event, spec: SpecView, status: StatusView)
    requires
        event.reports(spec, status),
    ensures
        event.type_ == EventType::Warning <==> status.phase is Blocked || status.phase is Failed
            || status.phase is Expired || status.blocked_reason is Some,
        status.phase is Releasing || status.phase is Released ==> event.action@ == "Release"@,
        !(status.phase is Releasing) && !(status.phase is Released) ==> event.action@ == "Prepare"@,
        status.phase is Released && status.observed_desired_state == Some(
            MaintenanceDesiredState::Cancel,
        ) ==> event.reason@ == "Cancelled"@,
        status.phase is Released && status.observed_desired_state != Some(
            MaintenanceDesiredState::Cancel,
        ) ==> event.reason@ == "Completed"@,
        !(status.phase is Released) && status.blocked_reason is Some ==> event.reason@
            == status.blocked_reason->Some_0.spec_name(),
        !(status.phase is Released) && status.blocked_reason is None ==> event.reason@
            == status.phase.spec_name(),
{
}

/// The note of an event is the message of the status, or as much of it as takes at most
/// 1024 bytes; there is none without a message.
pub proof fn notes_are_as_much_as_fits(
    event: Event,
    spec: SpecView,
    status: StatusView,
    n: int,
)
    requires
        event.reports(spec, status),
    ensures
        status.message is None <==> event.note is None,
        event.note is Some ==> {
            let full = status.message->Some_0;
            let note = event.note->Some_0@;
            &&& note.len() <= full.len() && note == full.take(note.len() as int)
            &&& encode_utf8(note).len() <= 1024
            &&& encode_utf8(full).len() <= 1024 ==> note == full
            &&& note.len() < n <= full.len() ==> encode_utf8(full.take(n)).len() > 1024
        },
{
    if event.note is Some {
        let full = status.message->Some_0;
        let at = if 0 <= n <= full.len() {
            n
        } else {
            0
        };
        text_laws::clipped_texts_are_as_long_as_fits(full, 1024, event.note->Some_0@, at);
    }
}

/// An event refers to the node of the request by its name, with the UID of the incarnation
/// that was released or else of the one that was prepared.
pub proof fn events_refer_to_the_node(event: Event, spec: SpecView, status: StatusView)
    requires
        event.reports(spec, status),
    ensures
        event.secondary matches Some(node) && {
            &&& text::opt_text(node.api_version) == Some("v1"@)
            &&& text::opt_text(node.kind) == Some("Node"@)
            &&& text::opt_text(node.name) == Some(spec.node_name)
            &&& status.released_node_uid is Some ==> text::opt_text(node.uid)
                == status.released_node_uid
            &&& status.released_node_uid is None ==> text::opt_text(node.uid) == status.node_uid
        },
{
}

/// Whether a node is another incarnation than the one that a release is for: than the one
/// that was confirmed or, where none was, than the one that was prepared.
pub open spec fn is_other_incarnation(spec: SpecView, status: StatusView, uid: Seq<char>) -> bool {
    ||| spec.release_node_uid is Some && spec.release_node_uid->Some_0 != uid
    ||| spec.release_node_uid is None && status.node_uid is Some && status.node_uid->Some_0 != uid
}

/// A node that is there as another incarnation than the one the release is for is never
/// released, whatever was asked for and whether it is ready or not: the request waits for
/// its confirmation.
pub proof fn other_incarnations_wait_for_confirmation(
    spec: SpecView,
    before: StatusView,
    node: NodeRef,
    now: Seq<char>,
)
    requires
        is_other_incarnation(spec, before, node.uid@),
    ensures
        ({
            let after = before.after_release(spec, Some(node), now);
            &&& after.phase is Releasing
            &&& after.blocked_reason == Some(MaintenanceBlockedReason::NodeIncarnationChanged)
            &&& after.released_at == before.released_at
            &&& after.released_node_uid == before.released_node_uid
        }),
{
}

/// A node that is there as no other incarnation is released if and only if it is ready, and
/// its own UID and the time are recorded. Otherwise the request waits for its readiness.
pub proof fn ready_nodes_are_released(
    spec: SpecView,
    before: StatusView,
    node: NodeRef,
    now: Seq<char>,
)
    requires
        !is_other_incarnation(spec, before, node.uid@),
    ensures
        ({
            let after = before.after_release(spec, Some(node), now);
            &&& node.ready ==> {
                &&& after.phase is Released
                &&& after.blocked_reason is None
                &&& after.released_node_uid == Some(node.uid@)
                &&& after.released_at == Some(now)
            }
            &&& !node.ready ==> {
                &&& after.phase is Releasing
                &&& after.blocked_reason == Some(MaintenanceBlockedReason::NodeNotReady)
                &&& after.released_at == before.released_at
                &&& after.released_node_uid == before.released_node_uid
            }
        }),
{
}

/// A node that is gone is released without a UID, at the time, if no incarnation was
/// confirmed and the maintenance is cancelled or the node may disappear. Otherwise the
/// request waits for it to return.
pub proof fn gone_nodes_are_released_where_nobody_waits_for_them(
    spec: SpecView,
    before: StatusView,
    now: Seq<char>,
)
    ensures
        ({
            let after = before.after_release(spec, None, now);
            let waits = spec.release_node_uid is Some || !(spec.desired_state is Cancel)
                && !(spec.node_recovery is MayDisappear);
            &&& !waits ==> {
                &&& after.phase is Released
                &&& after.blocked_reason is None
                &&& after.released_at == Some(now)
            }
            &&& waits ==> {
                &&& after.phase is Releasing
                &&& after.blocked_reason == Some(MaintenanceBlockedReason::NodeNotFound)
                &&& after.released_at == before.released_at
            }
            &&& after.released_node_uid == before.released_node_uid
        }),
{
}

/// Every attempt to release a node has a message. It names the node, or what was asked for,
/// and the UID of a node that is released or has to be confirmed.
pub proof fn release_messages_name_the_node(
    spec: SpecView,
    before: StatusView,
    node: NodeRef,
    now: Seq<char>,
)
    ensures
        ({
            let there = before.after_release(spec, Some(node), now);
            let gone = before.after_release(spec, None, now);
            &&& is_other_incarnation(spec, before, node.uid@) ==> there.message == Some(
                "Node "@ + spec.node_name + " now has UID "@ + node.uid@
                    + "; confirm this incarnation with spec.releaseNodeUid after recovery"@,
            )
            &&& !is_other_incarnation(spec, before, node.uid@) && !node.ready ==> there.message
                == Some("waiting for Node "@ + spec.node_name + " to be Ready before release"@)
            &&& !is_other_incarnation(spec, before, node.uid@) && node.ready ==> there.message
                == Some(
                spec.desired_state.spec_name() + " acknowledged for Node UID "@ + node.uid@
                    + "; this request no longer excludes primary placement"@,
            )
            &&& gone.phase is Released ==> gone.message == Some(
                spec.desired_state.spec_name() + " acknowledged; the target Node no longer exists"@,
            )
            &&& gone.phase is Releasing ==> gone.message == Some(
                "waiting for Node "@ + spec.node_name + " to return before release"@,
            )
        }),
{
}

/// No attempt to release a node touches what was recorded of its preparation: the
/// incarnation, the replica sets and what was observed of the request.
pub proof fn releases_leave_the_record_of_preparation(
    spec: SpecView,
    before: StatusView,
    node: Option<NodeRef>,
    now: Seq<char>,
)
    ensures
        ({
            let after = before.after_release(spec, node, now);
            &&& after.node_uid == before.node_uid
            &&& after.affected_sets == before.affected_sets
            &&& after.prepared_sets == before.prepared_sets
            &&& after.observed_generation == before.observed_generation
            &&& after.observed_desired_state == before.observed_desired_state
            &&& after.prepared_at is None
        }),
{
}

} // verus!
