//! What a reconcile hands to whoever judges the request, and what the cluster's answers
//! are read as.

use vstd::prelude::*;

use crate::maintenance::api::{NodeMaintenanceRequestStatus, NodeRef};
use crate::maintenance::controller::{
    self, MaintenancePod, NodeRead, PodRecord, Preflight, ReconcileEvent, ReconcileState,
    RequestContext, RequestRecord, SetTopology, SnapshotMember, StableSnapshot,
};
use crate::text;

verus! {

/// Discovery is handed the node and the pods just as they were read, or no node and no pods
/// where there is no such node.
pub proof fn discovery_is_handed_what_was_read(
    previous: NodeMaintenanceRequestStatus,
    node: NodeRef,
    pods: Vec<MaintenancePod>,
    listing: ReconcileState,
    discovering: ReconcileState,
    absent: ReconcileState,
)
    requires
        listing.follows(
            previous,
            ReconcileState::ReadNode,
            ReconcileEvent::NodeRead(Ok(Some(node))),
        ),
        discovering.follows(previous, listing, ReconcileEvent::PodsListed(Ok(pods))),
        absent.follows(previous, ReconcileState::ReadNode, ReconcileEvent::NodeRead(Ok(None))),
    ensures
        listing == (ReconcileState::ListPods { node }),
        discovering == (ReconcileState::Discover { found: Some(node), pods }),
        absent matches ReconcileState::Discover { found, pods: none } && found is None
            && none@.len() == 0,
{
}

/// Whether the topologies of a request are read one after the other through `states`, with
/// `reads` as what was read.
pub open spec fn is_reading(
    previous: NodeMaintenanceRequestStatus,
    discovered: NodeMaintenanceRequestStatus,
    reads: Seq<Option<SetTopology>>,
    states: Seq<ReconcileState>,
) -> bool {
    &&& states.len() == reads.len() + 1
    &&& discovered.blocked_reason is None
    &&& exists|from: ReconcileState|
        from is Discover && #[trigger] states[0].follows(
            previous,
            from,
            ReconcileEvent::Discovered(discovered),
        )
    &&& forall|i: int|
        0 <= i < reads.len() ==> (#[trigger] states[i]) is ReadTopology && states[i + 1].follows(
            previous,
            states[i],
            ReconcileEvent::TopologyRead(Ok(reads[i])),
        )
}

/// The topology of each affected set is read in turn, and the request is judged by what
/// discovery found and by all topologies in the order of the sets, as they were read.
pub proof fn preparation_is_handed_what_was_read(
    previous: NodeMaintenanceRequestStatus,
    discovered: NodeMaintenanceRequestStatus,
    reads: Seq<Option<SetTopology>>,
    states: Seq<ReconcileState>,
    i: int,
)
    requires
        is_reading(previous, discovered, reads, states),
        0 <= i < states.len(),
    ensures
        i <= discovered.affected_sets@.len(),
        i < discovered.affected_sets@.len() ==> (states[i] matches ReconcileState::ReadTopology {
            discovered: found,
            topologies,
        } && found == discovered && topologies@ == reads.take(i)),
        i == discovered.affected_sets@.len() ==> (states[i] matches ReconcileState::Prepare {
            discovered: found,
            topologies,
        } && found == discovered && topologies@ == reads.take(i)),
    decreases i,
{
    if i == 0 {
        assert(reads.take(0) =~= Seq::<Option<SetTopology>>::empty());
    } else {
        preparation_is_handed_what_was_read(previous, discovered, reads, states, i - 1);
        assert(states[i - 1] is ReadTopology);
        assert(reads.take(i - 1).push(reads[i - 1]) =~= reads.take(i));
    }
}

/// The set that is read next is the first one that nothing was read of yet.
pub proof fn sets_are_read_by_namespace_and_name(
    discovered: NodeMaintenanceRequestStatus,
    topologies: Vec<Option<SetTopology>>,
    set: Option<(String, String)>,
)
    requires
        (ReconcileState::ReadTopology { discovered, topologies }).reads_next(set),
    ensures
        set matches Some((namespace, name)) && namespace@
            == discovered.affected_sets@[topologies@.len() as int].namespace@ && name@
            == discovered.affected_sets@[topologies@.len() as int].name@,
{
}

/// Whatever the request is judged to be, by itself, by discovery where that blocks it, or by
/// its topologies, is written as it is if it differs from before, and is the outcome without
/// a write if it does not. A failed read or write is the outcome with its own reason.
pub proof fn judgements_are_written_as_they_are(
    previous: NodeMaintenanceRequestStatus,
    before: ReconcileState,
    event: ReconcileEvent,
    after: ReconcileState,
    judged: NodeMaintenanceRequestStatus,
)
    requires
        before.spec_expects(event),
        after.follows(previous, before, event),
        event == ReconcileEvent::Preflighted(Preflight::Settled(judged)) || event
            == ReconcileEvent::Prepared(judged) || (event == ReconcileEvent::Discovered(judged)
            && judged.blocked_reason is Some),
    ensures
        judged@ != previous@ ==> after == (ReconcileState::WriteStatus { status: judged }),
        judged@ == previous@ ==> (after matches ReconcileState::Finished { outcome: Ok(outcome) }
            && outcome.status == judged && !outcome.persisted),
{
}

/// A request that its preflight leaves open goes on with its node, and one that was written
/// is over, with the status that was written.
pub proof fn reconciles_begin_and_end(
    previous: NodeMaintenanceRequestStatus,
    status: NodeMaintenanceRequestStatus,
    beginning: ReconcileState,
    ending: ReconcileState,
)
    requires
        beginning.follows(
            previous,
            ReconcileState::Preflight,
            ReconcileEvent::Preflighted(Preflight::Discover),
        ),
        ending.follows(
            previous,
            ReconcileState::WriteStatus { status },
            ReconcileEvent::StatusWritten(Ok(())),
        ),
    ensures
        beginning == ReconcileState::ReadNode,
        ending matches ReconcileState::Finished { outcome: Ok(outcome) } && outcome.status == status
            && outcome.persisted,
{
}

/// Each state of a reconcile expects what came of it, and a finished one expects nothing.
pub proof fn reconciles_expect_what_they_asked_for(state: ReconcileState, event: ReconcileEvent)
    ensures
        event is Preflighted ==> (state.spec_expects(event) <==> state is Preflight),
        event is NodeRead ==> (state.spec_expects(event) <==> state is ReadNode),
        event is PodsListed ==> (state.spec_expects(event) <==> state is ListPods),
        event is Discovered ==> (state.spec_expects(event) <==> state is Discover),
        event is TopologyRead ==> (state.spec_expects(event) <==> state is ReadTopology),
        event is Prepared ==> (state.spec_expects(event) <==> state is Prepare),
        event is StatusWritten ==> (state.spec_expects(event) <==> state is WriteStatus),
{
}

/// A label has the value of its first entry, and none if there is no entry.
pub proof fn labels_are_read_by_their_key(labels: Seq<(String, String)>, key: Seq<char>, i: int)
    ensures
        (forall|j: int| 0 <= j < labels.len() ==> (#[trigger] labels[j]).0@ != key)
            ==> controller::label_value(labels, key) is None,
        0 <= i < labels.len() && labels[i].0@ == key && (forall|j: int|
            0 <= j < i ==> (#[trigger] labels[j]).0@ != key) ==> controller::label_value(labels, key)
            == Some(labels[i].1@),
    decreases labels.len(),
{
    if labels.len() > 0 {
        let rest = labels.drop_first();
        labels_are_read_by_their_key(rest, key, i - 1);
        assert(forall|j: int| 0 <= j < rest.len() ==> #[trigger] rest[j] == labels[j + 1]);
        if labels[0].0@ != key {
            if forall|j: int| 0 <= j < labels.len() ==> (#[trigger] labels[j]).0@ != key {
                assert forall|j: int| 0 <= j < rest.len() implies (#[trigger] rest[j]).0@ != key by {
                    assert(labels[j + 1].0@ != key);
                }
            }
            if 0 < i < labels.len() && labels[i].0@ == key && (forall|j: int|
                0 <= j < i ==> (#[trigger] labels[j]).0@ != key) {
                assert forall|j: int| 0 <= j < i - 1 implies (#[trigger] rest[j]).0@ != key by {
                    assert(labels[j + 1].0@ != key);
                }
            }
        } else if 0 <= i < labels.len() {
            if i > 0 {
                assert(labels[0].0@ == key);
            }
        }
    }
}

/// A pod is seen if and only if it is labelled with its replica set and has a namespace, a
/// name and a UID. It is seen with these, with the node that it is scheduled to, and as
/// primary if and only if its role label says so.
pub proof fn pods_are_seen_as_they_are_recorded(
    pod: PodRecord,
    converted: Option<MaintenancePod>,
)
    requires
        controller::is_seen_as(pod, converted),
    ensures
        converted is Some <==> {
            &&& pod.labels is Some
            &&& controller::label_value(pod.labels->Some_0@, "kuberic.io/set"@) is Some
            &&& pod.namespace is Some
            &&& pod.name is Some
            &&& pod.uid is Some
        },
        converted matches Some(seen) ==> {
            &&& seen.namespace@ == pod.namespace->Some_0@
            &&& seen.name@ == pod.name->Some_0@
            &&& seen.uid@ == pod.uid->Some_0@
            &&& text::opt_text(seen.node_name) == text::opt_text(pod.node_name)
            &&& Some(seen.set_name@) == controller::label_value(
                pod.labels->Some_0@,
                "kuberic.io/set"@,
            )
            &&& seen.is_primary <==> controller::label_value(
                pod.labels->Some_0@,
                "kuberic.io/role"@,
            ) == Some("primary"@)
        },
{
}

/// Of a list of pods those are seen that are seen by themselves, in the order of the list:
/// nothing of no pods, and one more pod adds itself at the end if it is seen, and nothing
/// otherwise.
pub proof fn lists_of_pods_are_seen_in_order(
    pods: Seq<PodRecord>,
    pod: PodRecord,
    before: Seq<MaintenancePod>,
    after: Seq<MaintenancePod>,
    none: Seq<MaintenancePod>,
    converted: Option<MaintenancePod>,
)
    requires
        controller::are_seen_as(pods, before),
        controller::are_seen_as(pods.push(pod), after),
        controller::are_seen_as(Seq::empty(), none),
        controller::is_seen_as(pod, converted),
    ensures
        none.len() == 0,
        after.len() == before.len() + (if converted is Some {
            1int
        } else {
            0
        }),
        forall|i: int|
            0 <= i < before.len() ==> (#[trigger] after[i]).name@ == before[i].name@
                && after[i].namespace@ == before[i].namespace@ && after[i].uid@ == before[i].uid@
                && after[i].set_name@ == before[i].set_name@ && after[i].is_primary
                == before[i].is_primary && text::opt_text(after[i].node_name) == text::opt_text(
                before[i].node_name,
            ),
        converted matches Some(seen) ==> after.last().name@ == seen.name@
            && after.last().namespace@ == seen.namespace@ && after.last().uid@ == seen.uid@
            && after.last().set_name@ == seen.set_name@ && after.last().is_primary
            == seen.is_primary && text::opt_text(after.last().node_name) == text::opt_text(
            seen.node_name,
        ),
{
    reveal(Seq::filter);
    assert(pods.push(pod).drop_last() =~= pods);
    assert(pods.push(pod).last() == pod);
    let seen = controller::replicas_of(pods);
    assert(controller::replicas_of(pods.push(pod)) == (if pod.is_replica() {
        seen.push(pod)
    } else {
        seen
    }));
    assert forall|i: int| 0 <= i < before.len() implies (#[trigger] after[i]).name@
        == before[i].name@ && after[i].namespace@ == before[i].namespace@ && after[i].uid@
        == before[i].uid@ && after[i].set_name@ == before[i].set_name@ && after[i].is_primary
        == before[i].is_primary && text::opt_text(after[i].node_name) == text::opt_text(
        before[i].node_name,
    ) by {
        assert(before[i].describes(seen[i]));
        assert(after[i].describes(seen[i]));
    }
    if converted is Some {
        assert(after[after.len() - 1].describes(pod));
    }
}

/// A node is read with its name and its UID. It is ready if and only if one of its conditions
/// says so and it is not being deleted. A node without a UID cannot be read; one that is not
/// found is none; and every other failure is that of the read.
pub proof fn nodes_are_read_as_they_are(
    name: Seq<char>,
    read: NodeRead,
    node: Result<Option<NodeRef>, String>,
)
    requires
        controller::is_read_as(name, read, node),
    ensures
        read matches NodeRead::Found { uid: Some(uid), conditions, deleting } ==> {
            &&& node matches Ok(Some(found))
            &&& found.name@ == name
            &&& found.uid@ == uid@
            &&& found.ready <==> !deleting && exists|i: int|
                0 <= i < conditions@.len() && (#[trigger] conditions@[i]).0@ == "Ready"@
                    && conditions@[i].1@ == "True"@
        },
        read matches NodeRead::Found { uid: None, .. } ==> node is Err,
        read matches NodeRead::Refused { code, reason } ==> {
            &&& code == 404 ==> node == Ok::<Option<NodeRef>, String>(None)
            &&& code != 404 ==> node == Err::<Option<NodeRef>, String>(reason)
        },
        read matches NodeRead::Failed { reason } ==> node == Err::<Option<NodeRef>, String>(reason),
{
}

/// The instance of an id is that of its first member, and there is none without one.
pub proof fn instances_are_found_by_their_id(members: Seq<SnapshotMember>, id: i64, i: int)
    ensures
        (forall|j: int| 0 <= j < members.len() ==> (#[trigger] members[j]).id != id)
            ==> controller::instance_of(members, id) is None,
        0 <= i < members.len() && members[i].id == id && (forall|j: int|
            0 <= j < i ==> (#[trigger] members[j]).id != id) ==> controller::instance_of(members, id)
            == Some(members[i].instance_id@),
    decreases members.len(),
{
    if members.len() > 0 {
        let rest = members.drop_first();
        instances_are_found_by_their_id(rest, id, i - 1);
        assert(forall|j: int| 0 <= j < rest.len() ==> #[trigger] rest[j] == members[j + 1]);
        if members[0].id != id {
            if forall|j: int| 0 <= j < members.len() ==> (#[trigger] members[j]).id != id {
                assert forall|j: int| 0 <= j < rest.len() implies (#[trigger] rest[j]).id != id by {
                    assert(members[j + 1].id != id);
                }
            }
            if 0 < i < members.len() && members[i].id == id && (forall|j: int|
                0 <= j < i ==> (#[trigger] members[j]).id != id) {
                assert forall|j: int| 0 <= j < i - 1 implies (#[trigger] rest[j]).id != id by {
                    assert(members[j + 1].id != id);
                }
            }
        } else if 0 < i < members.len() {
            assert(members[0].id == id);
        }
    }
}

/// A topology has the instances of all members in their order, the instance of the primary's
/// id as its primary, and the write quorum that was published.
pub proof fn topologies_are_as_published(
    snapshot: StableSnapshot,
    topology: SetTopology,
    i: int,
)
    requires
        snapshot.publishes(topology),
    ensures
        topology.member_pod_uids@.len() == snapshot.members@.len(),
        0 <= i < snapshot.members@.len() ==> topology.member_pod_uids@[i]@
            == snapshot.members@[i].instance_id@,
        (forall|j: int|
            0 <= j < snapshot.members@.len() ==> (#[trigger] snapshot.members@[j]).id
                != snapshot.primary_id) ==> topology.primary_pod_uid is None,
        0 <= i < snapshot.members@.len() && snapshot.members@[i].id == snapshot.primary_id && (
        forall|j: int|
            0 <= j < i ==> (#[trigger] snapshot.members@[j]).id != snapshot.primary_id) ==> (
        topology.primary_pod_uid matches Some(uid) && uid@ == snapshot.members@[i].instance_id@),
        topology.write_quorum == snapshot.write_quorum,
{
    instances_are_found_by_their_id(snapshot.members@, snapshot.primary_id, i);
    let uids = text::texts(topology.member_pod_uids@);
    let published = snapshot.members@.map_values(|member: SnapshotMember| member.instance_id@);
    assert(uids.len() == published.len());
    if 0 <= i < snapshot.members@.len() {
        assert(uids[i] == published[i]);
        assert(uids[i] == topology.member_pod_uids@[i]@);
    }
}

/// A status is written if and only if the request still is the one that was observed: the
/// same object in the same version and generation, asking for the same, and being deleted or
/// not as before. Otherwise the refusal names the request.
pub proof fn statuses_are_written_only_for_what_was_observed(
    ctx: RequestContext<'_>,
    current: RequestRecord,
    permitted: Result<(), String>,
)
    requires
        ctx.decides(current, permitted),
    ensures
        permitted is Ok ==> {
            &&& current.uid matches Some(uid) && uid@ == ctx.uid@
            &&& current.resource_version matches Some(version) && version@
                == ctx.resource_version@
            &&& current.deleting == ctx.deleting
            &&& current.generation == ctx.generation
            &&& current.spec@ == ctx.spec@
        },
        permitted is Err ==> {
            ||| current.uid is None
            ||| current.uid->Some_0@ != ctx.uid@
            ||| current.resource_version is None
            ||| current.resource_version->Some_0@ != ctx.resource_version@
            ||| current.deleting != ctx.deleting
            ||| current.generation != ctx.generation
            ||| current.spec@ != ctx.spec@
        },
        permitted matches Err(reason) ==> reason@ == "maintenance request "@ + ctx.name@
            + " changed after it was observed"@,
{
}

} // verus!
