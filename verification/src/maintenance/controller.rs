//! One reconcile of a maintenance request, from reading the cluster to writing the
//! status.
//!
//! A reconcile is a sequence of states. Each state says what is to be done next and
//! holds what is needed for it; what came of it is handed to [`reconcile_request`],
//! which gives the next state.

use vstd::prelude::*;

use crate::maintenance::api::{
    NodeMaintenanceRequestSpec, NodeMaintenanceRequestStatus, NodeRef,
};
use crate::maintenance::clock::Timestamp;
use crate::text;

verus! {

/// Label that names the replica set of a pod.
pub const SET_LABEL: &'static str = "kuberic.io/set";

/// Label that names the role of a pod's replica.
pub const ROLE_LABEL: &'static str = "kuberic.io/role";

/// What a reconcile has come to.
#[derive(Clone, Debug)]
pub struct ReconcileOutcome {
    pub status: NodeMaintenanceRequestStatus,
    /// Whether the status was written.
    pub persisted: bool,
}

/// The request as it was observed when its reconcile began.
pub struct RequestContext<'a> {
    pub name: &'a str,
    pub uid: &'a str,
    pub resource_version: &'a str,
    pub deleting: bool,
    pub spec: &'a NodeMaintenanceRequestSpec,
    pub generation: Option<i64>,
    pub previous: &'a NodeMaintenanceRequestStatus,
    pub now: &'a Timestamp,
}

/// A pod of a replica set.
#[derive(Clone, Debug, PartialEq, Eq)]
pub struct MaintenancePod {
    pub namespace: String,
    pub name: String,
    pub uid: String,
    pub node_name: Option<String>,
    pub set_name: String,
    pub is_primary: bool,
}

/// The published topology of a replica set.
#[derive(Clone, Debug, PartialEq, Eq)]
pub struct SetTopology {
    pub primary_pod_uid: Option<String>,
    pub member_pod_uids: Vec<String>,
    pub write_quorum: u32,
}

/// What can be said of a request without looking at the cluster.
pub enum Preflight {
    Settled(NodeMaintenanceRequestStatus),
    Discover,
}

/// What is to be done next.
pub enum ReconcileState {
    /// Judge the request by itself.
    Preflight,
    /// Read the node that the request names.
    ReadNode,
    /// List the pods of all replica sets.
    ListPods { node: NodeRef },
    /// Find out which replica sets are affected.
    Discover { found: Option<NodeRef>, pods: Vec<MaintenancePod> },
    /// Read the topology of the first affected set that has none yet.
    ReadTopology {
        discovered: NodeMaintenanceRequestStatus,
        topologies: Vec<Option<SetTopology>>,
    },
    /// Judge the request by the topologies of all affected sets.
    Prepare { discovered: NodeMaintenanceRequestStatus, topologies: Vec<Option<SetTopology>> },
    /// Write the status.
    WriteStatus { status: NodeMaintenanceRequestStatus },
    Finished { outcome: Result<ReconcileOutcome, String> },
}

/// What came of it.
pub enum ReconcileEvent {
    Preflighted(Preflight),
    NodeRead(Result<Option<NodeRef>, String>),
    PodsListed(Result<Vec<MaintenancePod>, String>),
    Discovered(NodeMaintenanceRequestStatus),
    TopologyRead(Result<Option<SetTopology>, String>),
    Prepared(NodeMaintenanceRequestStatus),
    StatusWritten(Result<(), String>),
}

impl ReconcileState {
    /// Topologies are only read while an affected set has none.
    pub open spec fn well_formed(self) -> bool {
        match self {
            ReconcileState::ReadTopology { discovered, topologies } => topologies@.len()
                < discovered.affected_sets@.len(),
            ReconcileState::Prepare { discovered, topologies } => topologies@.len()
                == discovered.affected_sets@.len(),
            _ => true,
        }
    }

    /// Whether `event` tells what came of this state.
    pub open spec fn spec_expects(self, event: ReconcileEvent) -> bool {
        match self {
            ReconcileState::Preflight => event is Preflighted,
            ReconcileState::ReadNode => event is NodeRead,
            ReconcileState::ListPods { .. } => event is PodsListed,
            ReconcileState::Discover { .. } => event is Discovered,
            ReconcileState::ReadTopology { .. } => event is TopologyRead,
            ReconcileState::Prepare { .. } => event is Prepared,
            ReconcileState::WriteStatus { .. } => event is StatusWritten,
            ReconcileState::Finished { .. } => false,
        }
    }

    /// Decides [`ReconcileState::spec_expects`].
    pub fn expects(&self, event: &ReconcileEvent) -> (fits: bool)
        ensures
            fits == self.spec_expects(*event),
    {
        match (self, event) {
            (ReconcileState::Preflight, ReconcileEvent::Preflighted(_)) => true,
            (ReconcileState::ReadNode, ReconcileEvent::NodeRead(_)) => true,
            (ReconcileState::ListPods { .. }, ReconcileEvent::PodsListed(_)) => true,
            (ReconcileState::Discover { .. }, ReconcileEvent::Discovered(_)) => true,
            (ReconcileState::ReadTopology { .. }, ReconcileEvent::TopologyRead(_)) => true,
            (ReconcileState::Prepare { .. }, ReconcileEvent::Prepared(_)) => true,
            (ReconcileState::WriteStatus { .. }, ReconcileEvent::StatusWritten(_)) => true,
            _ => false,
        }
    }

    /// Whether this state ends the reconcile with `reason`.
    pub open spec fn fails_with(self, reason: String) -> bool {
        self == (ReconcileState::Finished { outcome: Err(reason) })
    }

    /// Whether this state writes `status`, or ends the reconcile because the request
    /// already has that status.
    pub open spec fn settles(
        self,
        previous: NodeMaintenanceRequestStatus,
        status: NodeMaintenanceRequestStatus,
    ) -> bool {
        if status@ == previous@ {
            self == (ReconcileState::Finished {
                outcome: Ok(ReconcileOutcome { status, persisted: false }),
            })
        } else {
            self == (ReconcileState::WriteStatus { status })
        }
    }

    /// Whether this state reads the next topology, or judges the request because
    /// all topologies are read.
    pub open spec fn collects(
        self,
        discovered: NodeMaintenanceRequestStatus,
        topologies: Seq<Option<SetTopology>>,
    ) -> bool {
        if topologies.len() < discovered.affected_sets@.len() {
            self matches ReconcileState::ReadTopology { discovered: d, topologies: t } && d
                == discovered && t@ == topologies
        } else {
            self matches ReconcileState::Prepare { discovered: d, topologies: t } && d
                == discovered && t@ == topologies
        }
    }

    /// Whether this state follows `before` after `event`.
    pub open spec fn follows(
        self,
        previous: NodeMaintenanceRequestStatus,
        before: ReconcileState,
        event: ReconcileEvent,
    ) -> bool {
        match (before, event) {
            (ReconcileState::Preflight, ReconcileEvent::Preflighted(preflight)) => match preflight {
                Preflight::Settled(status) => self.settles(previous, status),
                Preflight::Discover => self == ReconcileState::ReadNode,
            },
            (ReconcileState::ReadNode, ReconcileEvent::NodeRead(read)) => match read {
                Ok(Some(node)) => self == (ReconcileState::ListPods { node }),
                Ok(None) => self matches ReconcileState::Discover { found: None, pods } && pods@.len()
                    == 0,
                Err(reason) => self.fails_with(reason),
            },
            (ReconcileState::ListPods { node }, ReconcileEvent::PodsListed(listed)) => match listed {
                Ok(pods) => self == (ReconcileState::Discover { found: Some(node), pods }),
                Err(reason) => self.fails_with(reason),
            },
            (ReconcileState::Discover { .. }, ReconcileEvent::Discovered(status)) => {
                if status.blocked_reason is Some {
                    self.settles(previous, status)
                } else {
                    self.collects(status, Seq::empty())
                }
            },
            (
                ReconcileState::ReadTopology { discovered, topologies },
                ReconcileEvent::TopologyRead(read),
            ) => match read {
                Ok(topology) => self.collects(discovered, topologies@.push(topology)),
                Err(reason) => self.fails_with(reason),
            },
            (ReconcileState::Prepare { .. }, ReconcileEvent::Prepared(status)) => self.settles(
                previous,
                status,
            ),
            (ReconcileState::WriteStatus { status }, ReconcileEvent::StatusWritten(written)) => {
                match written {
                    Ok(()) => self == (ReconcileState::Finished {
                        outcome: Ok(ReconcileOutcome { status, persisted: true }),
                    }),
                    Err(reason) => self.fails_with(reason),
                }
            },
            _ => true,
        }
    }
}

fn settle(previous: &NodeMaintenanceRequestStatus, status: NodeMaintenanceRequestStatus) -> (next:
    ReconcileState)
    ensures
        next.settles(*previous, status),
        next.well_formed(),
{
    if status.same_as(previous) {
        ReconcileState::Finished { outcome: Ok(ReconcileOutcome { status, persisted: false }) }
    } else {
        ReconcileState::WriteStatus { status }
    }
}

fn collect(
    discovered: NodeMaintenanceRequestStatus,
    topologies: Vec<Option<SetTopology>>,
) -> (next: ReconcileState)
    requires
        topologies@.len() <= discovered.affected_sets@.len(),
    ensures
        next.collects(discovered, topologies@),
        next.well_formed(),
{
    if topologies.len() < discovered.affected_sets.len() {
        ReconcileState::ReadTopology { discovered, topologies }
    } else {
        ReconcileState::Prepare { discovered, topologies }
    }
}

/// One step of a reconcile. The cluster is only read where the request by itself
/// leaves something open, pods are only listed for a node that exists, and the
/// status is only written where it differs from the previous one.
pub fn reconcile_request(
    ctx: &RequestContext<'_>,
    state: ReconcileState,
    event: ReconcileEvent,
) -> (next: ReconcileState)
    requires
        state.well_formed(),
        state.spec_expects(event),
    ensures
        next.follows(*ctx.previous, state, event),
        next.well_formed(),
{
    match (state, event) {
        (ReconcileState::Preflight, ReconcileEvent::Preflighted(preflight)) => match preflight {
            Preflight::Settled(status) => settle(ctx.previous, status),
            Preflight::Discover => ReconcileState::ReadNode,
        },
        (ReconcileState::ReadNode, ReconcileEvent::NodeRead(read)) => match read {
            Ok(Some(node)) => ReconcileState::ListPods { node },
            Ok(None) => ReconcileState::Discover { found: None, pods: Vec::new() },
            Err(reason) => ReconcileState::Finished { outcome: Err(reason) },
        },
        (ReconcileState::ListPods { node }, ReconcileEvent::PodsListed(listed)) => match listed {
            Ok(pods) => ReconcileState::Discover { found: Some(node), pods },
            Err(reason) => ReconcileState::Finished { outcome: Err(reason) },
        },
        (ReconcileState::Discover { .. }, ReconcileEvent::Discovered(status)) => {
            if status.blocked_reason.is_some() {
                settle(ctx.previous, status)
            } else {
                collect(status, Vec::new())
            }
        },
        (
            ReconcileState::ReadTopology { discovered, topologies },
            ReconcileEvent::TopologyRead(read),
        ) => match read {
            Ok(topology) => {
                let mut topologies = topologies;
                topologies.push(topology);
                collect(discovered, topologies)
            },
            Err(reason) => ReconcileState::Finished { outcome: Err(reason) },
        },
        (ReconcileState::Prepare { .. }, ReconcileEvent::Prepared(status)) => settle(
            ctx.previous,
            status,
        ),
        (ReconcileState::WriteStatus { status }, ReconcileEvent::StatusWritten(written)) => {
            match written {
                Ok(()) => ReconcileState::Finished {
                    outcome: Ok(ReconcileOutcome { status, persisted: true }),
                },
                Err(reason) => ReconcileState::Finished { outcome: Err(reason) },
            }
        },
        (state, _) => state,
    }
}

impl ReconcileState {
    /// Whether `set` has the namespace and the name of the affected set whose topology is
    /// to be read next, if any is.
    pub open spec fn reads_next(self, set: Option<(String, String)>) -> bool {
        match self {
            ReconcileState::ReadTopology { discovered, topologies } => set is Some
                && set->Some_0.0@ == discovered.affected_sets@[topologies@.len() as int].namespace@
                && set->Some_0.1@ == discovered.affected_sets@[topologies@.len() as int].name@,
            _ => set is None,
        }
    }
}

/// Namespace and name of the affected set whose topology is to be read next.
pub fn next_affected_set(state: &ReconcileState) -> (set: Option<(String, String)>)
    requires
        state.well_formed(),
    ensures
        state.reads_next(set),
{
    match state {
        ReconcileState::ReadTopology { discovered, topologies } => {
            let set = &discovered.affected_sets[topologies.len()];
            Some((set.namespace.clone(), set.name.clone()))
        },
        _ => None,
    }
}

/// What the cluster says about a pod.
#[derive(Clone, Debug)]
pub struct PodRecord {
    pub namespace: Option<String>,
    pub name: Option<String>,
    pub uid: Option<String>,
    pub node_name: Option<String>,
    /// Keys and values of the labels, if the pod has any; no key occurs twice.
    pub labels: Option<Vec<(String, String)>>,
}

/// The value of the first label with the given key.
pub open spec fn label_value(labels: Seq<(String, String)>, key: Seq<char>) -> Option<Seq<char>>
    decreases labels.len(),
{
    if labels.len() == 0 {
        None
    } else if labels.first().0@ == key {
        Some(labels.first().1@)
    } else {
        label_value(labels.drop_first(), key)
    }
}

impl PodRecord {
    pub open spec fn label(self, key: Seq<char>) -> Option<Seq<char>> {
        match self.labels {
            Some(labels) => label_value(labels@, key),
            None => None,
        }
    }

    /// Whether the pod belongs to a replica set and is fully identified.
    pub open spec fn is_replica(self) -> bool {
        &&& self.label(SET_LABEL@) is Some
        &&& self.namespace is Some
        &&& self.name is Some
        &&& self.uid is Some
    }
}

impl MaintenancePod {
    /// Whether this is what maintenance sees of `pod`.
    pub open spec fn describes(self, pod: PodRecord) -> bool {
        &&& pod.is_replica()
        &&& Some(self.namespace@) == text::opt_text(pod.namespace)
        &&& Some(self.name@) == text::opt_text(pod.name)
        &&& Some(self.uid@) == text::opt_text(pod.uid)
        &&& text::opt_text(self.node_name) == text::opt_text(pod.node_name)
        &&& Some(self.set_name@) == pod.label(SET_LABEL@)
        &&& self.is_primary <==> pod.label(ROLE_LABEL@) == Some("primary"@)
    }
}

fn find_label(labels: &Vec<(String, String)>, key: &str) -> (value: Option<String>)
    ensures
        text::opt_text(value) == label_value(labels@, key@),
{
    let wanted: String = key.to_owned();
    let mut i: usize = 0;
    assert(labels@.skip(0) =~= labels@);
    while i < labels.len()
        invariant
            i <= labels@.len(),
            wanted@ == key@,
            label_value(labels@, key@) == label_value(labels@.skip(i as int), key@),
        decreases labels@.len() - i,
    {
        let label = &labels[i];
        assert(labels@.skip(i as int).first() == *label);
        if label.0 == wanted {
            return Some(label.1.clone());
        }
        assert(labels@.skip(i as int).drop_first() =~= labels@.skip(i + 1));
        i += 1;
    }
    None
}

/// Whether `converted` is what maintenance sees of `pod`, if anything.
pub open spec fn is_seen_as(pod: PodRecord, converted: Option<MaintenancePod>) -> bool {
    &&& converted is Some <==> pod.is_replica()
    &&& converted matches Some(converted) ==> converted.describes(pod)
}

/// What maintenance sees of a pod, if the pod belongs to a replica set and has a
/// namespace, a name and a UID.
pub fn pod_to_maintenance_pod(pod: &PodRecord) -> (converted: Option<MaintenancePod>)
    ensures
        is_seen_as(*pod, converted),
{
    let labels: &Vec<(String, String)> = match &pod.labels {
        Some(labels) => labels,
        None => {
            return None;
        },
    };
    let set_name: String = match find_label(labels, SET_LABEL) {
        Some(set_name) => set_name,
        None => {
            return None;
        },
    };
    let primary: String = "primary".to_owned();
    let is_primary = match find_label(labels, ROLE_LABEL) {
        Some(role) => role == primary,
        None => false,
    };
    match (&pod.namespace, &pod.name, &pod.uid) {
        (Some(namespace), Some(name), Some(uid)) => Some(
            MaintenancePod {
                namespace: namespace.clone(),
                name: name.clone(),
                uid: uid.clone(),
                node_name: text::copy_opt_text(&pod.node_name),
                set_name,
                is_primary,
            },
        ),
        _ => None,
    }
}

/// The pods among `pods` that belong to a replica set, in order.
pub open spec fn replicas_of(pods: Seq<PodRecord>) -> Seq<PodRecord> {
    pods.filter(|pod: PodRecord| pod.is_replica())
}

/// Whether `converted` is what maintenance sees of `pods`.
pub open spec fn are_seen_as(pods: Seq<PodRecord>, converted: Seq<MaintenancePod>) -> bool {
    &&& converted.len() == replicas_of(pods).len()
    &&& forall|i: int|
        0 <= i < converted.len() ==> (#[trigger] converted[i]).describes(replicas_of(pods)[i])
}

/// What maintenance sees of a list of pods.
pub fn maintenance_pods(pods: &Vec<PodRecord>) -> (converted: Vec<MaintenancePod>)
    ensures
        are_seen_as(pods@, converted@),
{
    let mut converted: Vec<MaintenancePod> = Vec::new();
    let mut i: usize = 0;
    proof {
        reveal(Seq::filter);
    }
    while i < pods.len()
        invariant
            i <= pods@.len(),
            converted@.len() == replicas_of(pods@.take(i as int)).len(),
            forall|j: int|
                0 <= j < converted@.len() ==> (#[trigger] converted@[j]).describes(
                    replicas_of(pods@.take(i as int))[j],
                ),
        decreases pods@.len() - i,
    {
        proof {
            reveal(Seq::filter);
            assert(pods@.take(i + 1).drop_last() =~= pods@.take(i as int));
            assert(pods@.take(i + 1).last() == pods@[i as int]);
        }
        match pod_to_maintenance_pod(&pods[i]) {
            Some(pod) => {
                converted.push(pod);
            },
            None => {},
        }
        i += 1;
    }
    assert(pods@.take(i as int) =~= pods@);
    converted
}

/// What came of reading a node.
#[derive(Debug)]
pub enum NodeRead {
    Found {
        uid: Option<String>,
        /// Types and statuses of the conditions that the node reports.
        conditions: Vec<(String, String)>,
        deleting: bool,
    },
    /// The cluster answered with a status code.
    Refused { code: u16, reason: String },
    Failed { reason: String },
}

/// Whether a node with these conditions reports itself ready.
pub open spec fn reports_ready(conditions: Seq<(String, String)>) -> bool {
    exists|i: int|
        0 <= i < conditions.len() && (#[trigger] conditions[i]).0@ == "Ready"@
            && conditions[i].1@ == "True"@
}

fn is_ready(conditions: &Vec<(String, String)>) -> (ready: bool)
    ensures
        ready == reports_ready(conditions@),
{
    let type_: String = "Ready".to_owned();
    let status: String = "True".to_owned();
    let mut i: usize = 0;
    while i < conditions.len()
        invariant
            i <= conditions@.len(),
            type_@ == "Ready"@,
            status@ == "True"@,
            forall|j: int|
                0 <= j < i ==> (#[trigger] conditions@[j]).0@ != "Ready"@ || conditions@[j].1@
                    != "True"@,
        decreases conditions@.len() - i,
    {
        let condition = &conditions[i];
        if condition.0 == type_ && condition.1 == status {
            assert(conditions@[i as int].0@ == "Ready"@);
            return true;
        }
        i += 1;
    }
    false
}

/// Whether `node` is what a read of the node of the given name comes to.
pub open spec fn is_read_as(
    name: Seq<char>,
    read: NodeRead,
    node: Result<Option<NodeRef>, String>,
) -> bool {
    match read {
        NodeRead::Found { uid: Some(uid), conditions, deleting } => node matches Ok(Some(node))
            && node.name@ == name && node.uid == uid && node.ready == (reports_ready(conditions@)
            && !deleting),
        NodeRead::Found { uid: None, .. } => node matches Err(reason) && reason@ == "node "@ + name
            + " has no uid"@,
        NodeRead::Refused { code, reason } => if code == 404 {
            node == Ok::<Option<NodeRef>, String>(None)
        } else {
            node == Err::<Option<NodeRef>, String>(reason)
        },
        NodeRead::Failed { reason } => node == Err::<Option<NodeRef>, String>(reason),
    }
}

/// The node of the given name, if there is one. A node counts as ready only while
/// it is not being deleted.
pub fn get_node(name: &str, read: NodeRead) -> (node: Result<Option<NodeRef>, String>)
    ensures
        is_read_as(name@, read, node),
{
    match read {
        NodeRead::Found { uid, conditions, deleting } => match uid {
            Some(uid) => Ok(
                Some(
                    NodeRef {
                        name: name.to_owned(),
                        uid,
                        ready: is_ready(&conditions) && !deleting,
                    },
                ),
            ),
            None => {
                let mut reason = "node ".to_owned();
                reason.append(name);
                reason.append(" has no uid");
                Err(reason)
            },
        },
        NodeRead::Refused { code, reason } => if code == 404 {
            Ok(None)
        } else {
            Err(reason)
        },
        NodeRead::Failed { reason } => Err(reason),
    }
}

/// A member of a replica set's published configuration.
#[derive(Clone, Debug)]
pub struct SnapshotMember {
    pub id: i64,
    pub instance_id: String,
}

/// The published configuration of a replica set.
#[derive(Clone, Debug)]
pub struct StableSnapshot {
    pub members: Vec<SnapshotMember>,
    pub primary_id: i64,
    pub write_quorum: u32,
}

/// The instance of the first member with the given id.
pub open spec fn instance_of(members: Seq<SnapshotMember>, id: i64) -> Option<Seq<char>>
    decreases members.len(),
{
    if members.len() == 0 {
        None
    } else if members.first().id == id {
        Some(members.first().instance_id@)
    } else {
        instance_of(members.drop_first(), id)
    }
}

impl StableSnapshot {
    /// Whether `topology` is what the configuration says.
    pub open spec fn publishes(self, topology: SetTopology) -> bool {
        &&& text::opt_text(topology.primary_pod_uid) == instance_of(self.members@, self.primary_id)
        &&& text::texts(topology.member_pod_uids@) == self.members@.map_values(
            |member: SnapshotMember| member.instance_id@,
        )
        &&& topology.write_quorum == self.write_quorum
    }
}

/// The topology that a replica set has published, if it has.
pub fn get_set_topology(snapshot: Option<&StableSnapshot>) -> (topology: Option<SetTopology>)
    ensures
        topology is Some <==> snapshot is Some,
        topology matches Some(topology) ==> snapshot->Some_0.publishes(topology),
{
    let snapshot: &StableSnapshot = match snapshot {
        Some(snapshot) => snapshot,
        None => {
            return None;
        },
    };
    let mut primary_pod_uid: Option<String> = None;
    let mut member_pod_uids: Vec<String> = Vec::new();
    let ghost members = snapshot.members@;
    let mut i: usize = 0;
    assert(members.skip(0) =~= members);
    while i < snapshot.members.len()
        invariant
            i <= members.len(),
            members == snapshot.members@,
            member_pod_uids@.len() == i,
            forall|j: int| 0 <= j < i ==> (#[trigger] member_pod_uids@[j])@ == members[j].instance_id@,
            primary_pod_uid is Some ==> text::opt_text(primary_pod_uid) == instance_of(
                members,
                snapshot.primary_id,
            ),
            primary_pod_uid is None ==> instance_of(members, snapshot.primary_id) == instance_of(
                members.skip(i as int),
                snapshot.primary_id,
            ),
        decreases members.len() - i,
    {
        let member = &snapshot.members[i];
        assert(members.skip(i as int).first() == *member);
        assert(members.skip(i as int).drop_first() =~= members.skip(i + 1));
        if primary_pod_uid.is_none() && member.id == snapshot.primary_id {
            primary_pod_uid = Some(member.instance_id.clone());
        }
        member_pod_uids.push(member.instance_id.clone());
        i += 1;
    }
    assert(text::texts(member_pod_uids@) =~= members.map_values(
        |member: SnapshotMember| member.instance_id@,
    ));
    Some(SetTopology { primary_pod_uid, member_pod_uids, write_quorum: snapshot.write_quorum })
}

/// A request as it stands when its status is about to be written.
#[derive(Clone, Debug)]
pub struct RequestRecord {
    pub uid: Option<String>,
    pub resource_version: Option<String>,
    pub deleting: bool,
    pub generation: Option<i64>,
    pub spec: NodeMaintenanceRequestSpec,
}

impl RequestContext<'_> {
    /// Whether `current` is still the request that was observed.
    pub open spec fn observed(self, current: RequestRecord) -> bool {
        &&& text::opt_text(current.uid) == Some(self.uid@)
        &&& text::opt_text(current.resource_version) == Some(self.resource_version@)
        &&& current.deleting == self.deleting
        &&& current.generation == self.generation
        &&& current.spec@ == self.spec@
    }
}

impl RequestContext<'_> {
    /// Whether `permitted` is whether the status of the request may be written while it
    /// stands as `current`.
    pub open spec fn decides(self, current: RequestRecord, permitted: Result<(), String>) -> bool {
        &&& permitted is Ok <==> self.observed(current)
        &&& permitted matches Err(reason) ==> reason@ == "maintenance request "@ + self.name@
            + " changed after it was observed"@
    }
}

/// Whether the status of a request may be written. Neither a request that replaces
/// the observed one nor a newer decision about it is ever overwritten.
pub fn patch_request_status(ctx: &RequestContext<'_>, current: &RequestRecord) -> (permitted: Result<
    (),
    String,
>)
    ensures
        ctx.decides(*current, permitted),
{
    let uid: Option<String> = Some(ctx.uid.to_owned());
    let resource_version: Option<String> = Some(ctx.resource_version.to_owned());
    let same_generation = match (current.generation, ctx.generation) {
        (Some(a), Some(b)) => a == b,
        (None, None) => true,
        _ => false,
    };
    if text::same_opt_text(&current.uid, &uid) && text::same_opt_text(
        &current.resource_version,
        &resource_version,
    ) && current.deleting == ctx.deleting && same_generation && current.spec.same_as(ctx.spec) {
        Ok(())
    } else {
        let mut reason = "maintenance request ".to_owned();
        reason.append(ctx.name);
        reason.append(" changed after it was observed");
        Err(reason)
    }
}

} // verus!
