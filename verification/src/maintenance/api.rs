//! Maintenance requests: what a coordinator asks for and what the operator
//! reports back.

use vstd::prelude::*;

use crate::text;

verus! {

/// Type of the condition that reports whether a node is prepared.
pub const PREPARED_CONDITION_TYPE: &'static str = "KubericPrepared";

/// Finalizer that holds a request until it is released.
pub const MAINTENANCE_FINALIZER: &'static str = "kuberic.io/node-maintenance";

/// What a coordinator wants to happen.
#[derive(Clone, Copy, Debug, PartialEq, Eq, Structural)]
pub enum MaintenanceDesiredState {
    Prepare,
    Complete,
    Cancel,
}

impl MaintenanceDesiredState {
    pub open spec fn spec_name(self) -> Seq<char> {
        match self {
            MaintenanceDesiredState::Prepare => "Prepare"@,
            MaintenanceDesiredState::Complete => "Complete"@,
            MaintenanceDesiredState::Cancel => "Cancel"@,
        }
    }

    /// The name of the variant.
    pub fn name(&self) -> (name: &'static str)
        ensures
            name@ == self.spec_name(),
    {
        match self {
            MaintenanceDesiredState::Prepare => "Prepare",
            MaintenanceDesiredState::Complete => "Complete",
            MaintenanceDesiredState::Cancel => "Cancel",
        }
    }
}

/// How far a request has come.
#[derive(Clone, Copy, Debug, PartialEq, Eq, Structural)]
pub enum MaintenancePhase {
    Requested,
    Preparing,
    Prepared,
    Blocked,
    Failed,
    Expired,
    Releasing,
    Released,
}

impl MaintenancePhase {
    pub open spec fn spec_name(self) -> Seq<char> {
        match self {
            MaintenancePhase::Requested => "Requested"@,
            MaintenancePhase::Preparing => "Preparing"@,
            MaintenancePhase::Prepared => "Prepared"@,
            MaintenancePhase::Blocked => "Blocked"@,
            MaintenancePhase::Failed => "Failed"@,
            MaintenancePhase::Expired => "Expired"@,
            MaintenancePhase::Releasing => "Releasing"@,
            MaintenancePhase::Released => "Released"@,
        }
    }

    /// The name of the variant.
    pub fn name(&self) -> (name: &'static str)
        ensures
            name@ == self.spec_name(),
    {
        match self {
            MaintenancePhase::Requested => "Requested",
            MaintenancePhase::Preparing => "Preparing",
            MaintenancePhase::Prepared => "Prepared",
            MaintenancePhase::Blocked => "Blocked",
            MaintenancePhase::Failed => "Failed",
            MaintenancePhase::Expired => "Expired",
            MaintenancePhase::Releasing => "Releasing",
            MaintenancePhase::Released => "Released",
        }
    }

    pub open spec fn spec_requires_reason(self) -> bool {
        self is Blocked || self is Failed || self is Expired
    }

    /// Whether this phase never comes without a reason.
    pub fn requires_reason(&self) -> (requires_it: bool)
        ensures
            requires_it == self.spec_requires_reason(),
    {
        match self {
            MaintenancePhase::Blocked => true,
            MaintenancePhase::Failed => true,
            MaintenancePhase::Expired => true,
            _ => false,
        }
    }

    pub open spec fn spec_excludes_primary_placement(self) -> bool {
        !(self is Requested) && !(self is Released)
    }

    /// Whether a request in this phase keeps primaries off its node.
    pub fn excludes_primary_placement(&self) -> (excludes: bool)
        ensures
            excludes == self.spec_excludes_primary_placement(),
    {
        match self {
            MaintenancePhase::Requested => false,
            MaintenancePhase::Released => false,
            _ => true,
        }
    }
}

/// Why a request does not advance.
#[derive(Clone, Copy, Debug, PartialEq, Eq, Structural)]
pub enum MaintenanceBlockedReason {
    DeadlineExceeded,
    InvalidDeadline,
    BlockedByQuorum,
    NoEligibleTarget,
    NodeNotFound,
    NodeIncarnationChanged,
    NodeNotReady,
    ConflictingOperation,
    ReplicaRecoveryIncomplete,
}

impl MaintenanceBlockedReason {
    pub open spec fn spec_name(self) -> Seq<char> {
        match self {
            MaintenanceBlockedReason::DeadlineExceeded => "DeadlineExceeded"@,
            MaintenanceBlockedReason::InvalidDeadline => "InvalidDeadline"@,
            MaintenanceBlockedReason::BlockedByQuorum => "BlockedByQuorum"@,
            MaintenanceBlockedReason::NoEligibleTarget => "NoEligibleTarget"@,
            MaintenanceBlockedReason::NodeNotFound => "NodeNotFound"@,
            MaintenanceBlockedReason::NodeIncarnationChanged => "NodeIncarnationChanged"@,
            MaintenanceBlockedReason::NodeNotReady => "NodeNotReady"@,
            MaintenanceBlockedReason::ConflictingOperation => "ConflictingOperation"@,
            MaintenanceBlockedReason::ReplicaRecoveryIncomplete => "ReplicaRecoveryIncomplete"@,
        }
    }

    /// The name of the variant.
    pub fn name(&self) -> (name: &'static str)
        ensures
            name@ == self.spec_name(),
    {
        match self {
            MaintenanceBlockedReason::DeadlineExceeded => "DeadlineExceeded",
            MaintenanceBlockedReason::InvalidDeadline => "InvalidDeadline",
            MaintenanceBlockedReason::BlockedByQuorum => "BlockedByQuorum",
            MaintenanceBlockedReason::NoEligibleTarget => "NoEligibleTarget",
            MaintenanceBlockedReason::NodeNotFound => "NodeNotFound",
            MaintenanceBlockedReason::NodeIncarnationChanged => "NodeIncarnationChanged",
            MaintenanceBlockedReason::NodeNotReady => "NodeNotReady",
            MaintenanceBlockedReason::ConflictingOperation => "ConflictingOperation",
            MaintenanceBlockedReason::ReplicaRecoveryIncomplete => "ReplicaRecoveryIncomplete",
        }
    }
}

/// What is expected of the node after maintenance.
#[derive(Clone, Copy, Debug, PartialEq, Eq, Structural)]
pub enum NodeRecovery {
    /// The node has to return.
    Return,
    /// The node may also be gone for good.
    MayDisappear,
}

/// What is expected of the node's replicas after maintenance.
#[derive(Clone, Copy, Debug, PartialEq, Eq, Structural)]
pub enum ReplicaRecovery {
    /// The replicas may be the ones from before.
    Preserve,
    /// The replicas from before have to be gone.
    Rebuild,
}

/// A node as maintenance sees it.
#[derive(Clone, Debug, PartialEq, Eq)]
pub struct NodeRef {
    pub name: String,
    pub uid: String,
    /// Whether the node is ready and not being deleted.
    pub ready: bool,
}

/// What a coordinator asks for.
#[derive(Clone, Debug, PartialEq, Eq)]
pub struct NodeMaintenanceRequestSpec {
    pub node_name: String,
    pub node_recovery: NodeRecovery,
    pub replica_recovery: ReplicaRecovery,
    pub desired_state: MaintenanceDesiredState,
    pub provider: Option<String>,
    pub provider_event_id: Option<String>,
    /// Earliest time at which preparation begins.
    pub not_before: Option<String>,
    /// Latest time by which preparation has to succeed.
    pub deadline: Option<String>,
    /// The node incarnation that a release is confirmed for.
    pub release_node_uid: Option<String>,
}

/// The contents of a [`NodeMaintenanceRequestSpec`].
#[verifier::ext_equal]
pub struct SpecView {
    pub node_name: Seq<char>,
    pub node_recovery: NodeRecovery,
    pub replica_recovery: ReplicaRecovery,
    pub desired_state: MaintenanceDesiredState,
    pub provider: Option<Seq<char>>,
    pub provider_event_id: Option<Seq<char>>,
    pub not_before: Option<Seq<char>>,
    pub deadline: Option<Seq<char>>,
    pub release_node_uid: Option<Seq<char>>,
}

impl View for NodeMaintenanceRequestSpec {
    type V = SpecView;

    open spec fn view(&self) -> SpecView {
        SpecView {
            node_name: self.node_name@,
            node_recovery: self.node_recovery,
            replica_recovery: self.replica_recovery,
            desired_state: self.desired_state,
            provider: text::opt_text(self.provider),
            provider_event_id: text::opt_text(self.provider_event_id),
            not_before: text::opt_text(self.not_before),
            deadline: text::opt_text(self.deadline),
            release_node_uid: text::opt_text(self.release_node_uid),
        }
    }
}

impl SpecView {
    /// A request for `node_name` with the default policies.
    pub open spec fn plain(node_name: Seq<char>) -> SpecView {
        SpecView {
            node_name,
            node_recovery: NodeRecovery::Return,
            replica_recovery: ReplicaRecovery::Preserve,
            desired_state: MaintenanceDesiredState::Prepare,
            provider: None,
            provider_event_id: None,
            not_before: None,
            deadline: None,
            release_node_uid: None,
        }
    }
}

impl NodeMaintenanceRequestSpec {
    /// A request for `node_name` with the default policies.
    pub fn new(node_name: String) -> (spec: NodeMaintenanceRequestSpec)
        ensures
            spec@ == SpecView::plain(node_name@),
    {
        NodeMaintenanceRequestSpec {
            node_name,
            node_recovery: NodeRecovery::Return,
            replica_recovery: ReplicaRecovery::Preserve,
            desired_state: MaintenanceDesiredState::Prepare,
            provider: None,
            provider_event_id: None,
            not_before: None,
            deadline: None,
            release_node_uid: None,
        }
    }

    /// Whether two requests ask for the same.
    pub fn same_as(&self, other: &NodeMaintenanceRequestSpec) -> (same: bool)
        ensures
            same == (self@ == other@),
    {
        self.node_name == other.node_name && self.node_recovery == other.node_recovery
            && self.replica_recovery == other.replica_recovery && self.desired_state
            == other.desired_state && text::same_opt_text(&self.provider, &other.provider)
            && text::same_opt_text(&self.provider_event_id, &other.provider_event_id)
            && text::same_opt_text(&self.not_before, &other.not_before) && text::same_opt_text(
            &self.deadline,
            &other.deadline,
        ) && text::same_opt_text(&self.release_node_uid, &other.release_node_uid)
    }
}

/// A replica set with replicas on the node.
#[derive(Clone, Debug, PartialEq, Eq)]
pub struct AffectedSet {
    pub namespace: String,
    pub name: String,
    pub hosts_primary: bool,
    pub primary_moved: bool,
    pub quorum_without_node: bool,
    pub pod_uids: Vec<String>,
}

/// The contents of an [`AffectedSet`].
#[verifier::ext_equal]
pub struct SetView {
    pub namespace: Seq<char>,
    pub name: Seq<char>,
    pub hosts_primary: bool,
    pub primary_moved: bool,
    pub quorum_without_node: bool,
    pub pod_uids: Seq<Seq<char>>,
}

impl View for AffectedSet {
    type V = SetView;

    open spec fn view(&self) -> SetView {
        SetView {
            namespace: self.namespace@,
            name: self.name@,
            hosts_primary: self.hosts_primary,
            primary_moved: self.primary_moved,
            quorum_without_node: self.quorum_without_node,
            pod_uids: text::texts(self.pod_uids@),
        }
    }
}

impl AffectedSet {
    /// Whether two sets are the same in every respect.
    pub fn same_as(&self, other: &AffectedSet) -> (same: bool)
        ensures
            same == (self@ == other@),
    {
        self.namespace == other.namespace && self.name == other.name && self.hosts_primary
            == other.hosts_primary && self.primary_moved == other.primary_moved
            && self.quorum_without_node == other.quorum_without_node && text::same_texts(
            &self.pod_uids,
            &other.pod_uids,
        )
    }
}

/// The contents of a list of sets.
pub open spec fn set_views(sets: Seq<AffectedSet>) -> Seq<SetView> {
    sets.map_values(|set: AffectedSet| set@)
}

fn same_sets(a: &Vec<AffectedSet>, b: &Vec<AffectedSet>) -> (same: bool)
    ensures
        same == (set_views(a@) == set_views(b@)),
{
    if a.len() != b.len() {
        assert(set_views(a@).len() != set_views(b@).len());
        return false;
    }
    let mut i: usize = 0;
    while i < a.len()
        invariant
            i <= a.len(),
            a.len() == b.len(),
            forall|j: int| 0 <= j < i ==> a@[j]@ == b@[j]@,
        decreases a.len() - i,
    {
        if !a[i].same_as(&b[i]) {
            assert(set_views(a@)[i as int] != set_views(b@)[i as int]);
            return false;
        }
        i += 1;
    }
    assert(set_views(a@) =~= set_views(b@));
    true
}

/// An observation about a request.
#[derive(Clone, Debug, PartialEq, Eq)]
pub struct Condition {
    pub type_: String,
    pub status: String,
    pub reason: String,
    pub message: String,
    pub observed_generation: Option<i64>,
    pub last_transition_time: String,
}

/// The contents of a [`Condition`].
#[verifier::ext_equal]
pub struct ConditionView {
    pub type_: Seq<char>,
    pub status: Seq<char>,
    pub reason: Seq<char>,
    pub message: Seq<char>,
    pub observed_generation: Option<i64>,
    pub last_transition_time: Seq<char>,
}

impl View for Condition {
    type V = ConditionView;

    open spec fn view(&self) -> ConditionView {
        ConditionView {
            type_: self.type_@,
            status: self.status@,
            reason: self.reason@,
            message: self.message@,
            observed_generation: self.observed_generation,
            last_transition_time: self.last_transition_time@,
        }
    }
}

fn same_generation(a: Option<i64>, b: Option<i64>) -> (same: bool)
    ensures
        same == (a == b),
{
    match (a, b) {
        (Some(x), Some(y)) => x == y,
        (None, None) => true,
        _ => false,
    }
}

impl Condition {
    /// Whether two conditions are the same in every respect.
    pub fn same_as(&self, other: &Condition) -> (same: bool)
        ensures
            same == (self@ == other@),
    {
        self.type_ == other.type_ && self.status == other.status && self.reason == other.reason
            && self.message == other.message && same_generation(
            self.observed_generation,
            other.observed_generation,
        ) && self.last_transition_time == other.last_transition_time
    }
}

/// The contents of a list of conditions.
pub open spec fn condition_views(conditions: Seq<Condition>) -> Seq<ConditionView> {
    conditions.map_values(|condition: Condition| condition@)
}

fn same_conditions(a: &Vec<Condition>, b: &Vec<Condition>) -> (same: bool)
    ensures
        same == (condition_views(a@) == condition_views(b@)),
{
    if a.len() != b.len() {
        assert(condition_views(a@).len() != condition_views(b@).len());
        return false;
    }
    let mut i: usize = 0;
    while i < a.len()
        invariant
            i <= a.len(),
            a.len() == b.len(),
            forall|j: int| 0 <= j < i ==> a@[j]@ == b@[j]@,
        decreases a.len() - i,
    {
        if !a[i].same_as(&b[i]) {
            assert(condition_views(a@)[i as int] != condition_views(b@)[i as int]);
            return false;
        }
        i += 1;
    }
    assert(condition_views(a@) =~= condition_views(b@));
    true
}

/// What the operator reports about a request.
#[derive(Clone, Debug, PartialEq, Eq)]
pub struct NodeMaintenanceRequestStatus {
    pub phase: MaintenancePhase,
    pub observed_generation: Option<i64>,
    pub observed_desired_state: Option<MaintenanceDesiredState>,
    pub node_uid: Option<String>,
    pub affected_sets: Vec<AffectedSet>,
    pub prepared_sets: Vec<AffectedSet>,
    pub prepared_at: Option<String>,
    pub released_at: Option<String>,
    pub released_node_uid: Option<String>,
    pub blocked_reason: Option<MaintenanceBlockedReason>,
    pub message: Option<String>,
    pub conditions: Vec<Condition>,
}

/// The contents of a [`NodeMaintenanceRequestStatus`].
#[verifier::ext_equal]
pub struct StatusView {
    pub phase: MaintenancePhase,
    pub observed_generation: Option<i64>,
    pub observed_desired_state: Option<MaintenanceDesiredState>,
    pub node_uid: Option<Seq<char>>,
    pub affected_sets: Seq<SetView>,
    pub prepared_sets: Seq<SetView>,
    pub prepared_at: Option<Seq<char>>,
    pub released_at: Option<Seq<char>>,
    pub released_node_uid: Option<Seq<char>>,
    pub blocked_reason: Option<MaintenanceBlockedReason>,
    pub message: Option<Seq<char>>,
    pub conditions: Seq<ConditionView>,
}

impl View for NodeMaintenanceRequestStatus {
    type V = StatusView;

    open spec fn view(&self) -> StatusView {
        StatusView {
            phase: self.phase,
            observed_generation: self.observed_generation,
            observed_desired_state: self.observed_desired_state,
            node_uid: text::opt_text(self.node_uid),
            affected_sets: set_views(self.affected_sets@),
            prepared_sets: set_views(self.prepared_sets@),
            prepared_at: text::opt_text(self.prepared_at),
            released_at: text::opt_text(self.released_at),
            released_node_uid: text::opt_text(self.released_node_uid),
            blocked_reason: self.blocked_reason,
            message: text::opt_text(self.message),
            conditions: condition_views(self.conditions@),
        }
    }
}

impl StatusView {
    /// The status of a request that nothing has been done about yet.
    pub open spec fn initial() -> StatusView {
        StatusView {
            phase: MaintenancePhase::Requested,
            observed_generation: None,
            observed_desired_state: None,
            node_uid: None,
            affected_sets: Seq::empty(),
            prepared_sets: Seq::empty(),
            prepared_at: None,
            released_at: None,
            released_node_uid: None,
            blocked_reason: None,
            message: None,
            conditions: Seq::empty(),
        }
    }
}

fn same_desired_state(
    a: Option<MaintenanceDesiredState>,
    b: Option<MaintenanceDesiredState>,
) -> (same: bool)
    ensures
        same == (a == b),
{
    match (a, b) {
        (Some(x), Some(y)) => x == y,
        (None, None) => true,
        _ => false,
    }
}

/// Whether two optional reasons are the same.
pub fn same_reason(
    a: Option<MaintenanceBlockedReason>,
    b: Option<MaintenanceBlockedReason>,
) -> (same: bool)
    ensures
        same == (a == b),
{
    match (a, b) {
        (Some(x), Some(y)) => x == y,
        (None, None) => true,
        _ => false,
    }
}

impl NodeMaintenanceRequestStatus {
    /// Whether two statuses report the same.
    pub fn same_as(&self, other: &NodeMaintenanceRequestStatus) -> (same: bool)
        ensures
            same == (self@ == other@),
    {
        self.phase == other.phase && same_generation(
            self.observed_generation,
            other.observed_generation,
        ) && same_desired_state(self.observed_desired_state, other.observed_desired_state)
            && text::same_opt_text(&self.node_uid, &other.node_uid) && same_sets(
            &self.affected_sets,
            &other.affected_sets,
        ) && same_sets(&self.prepared_sets, &other.prepared_sets) && text::same_opt_text(
            &self.prepared_at,
            &other.prepared_at,
        ) && text::same_opt_text(&self.released_at, &other.released_at) && text::same_opt_text(
            &self.released_node_uid,
            &other.released_node_uid,
        ) && same_reason(self.blocked_reason, other.blocked_reason) && text::same_opt_text(
            &self.message,
            &other.message,
        ) && same_conditions(&self.conditions, &other.conditions)
    }
}

impl Default for NodeMaintenanceRequestStatus {
    fn default() -> (status: Self)
        ensures
            status@ == StatusView::initial(),
    {
        let status = NodeMaintenanceRequestStatus {
            phase: MaintenancePhase::Requested,
            observed_generation: None,
            observed_desired_state: None,
            node_uid: None,
            affected_sets: Vec::new(),
            prepared_sets: Vec::new(),
            prepared_at: None,
            released_at: None,
            released_node_uid: None,
            blocked_reason: None,
            message: None,
            conditions: Vec::new(),
        };
        assert(status@ =~= StatusView::initial());
        status
    }
}

} // verus!
