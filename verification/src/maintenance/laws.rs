//! What holds of maintenance requests across calls.

use vstd::prelude::*;

use crate::maintenance::api::{
    ConditionView, MaintenanceBlockedReason, MaintenancePhase, NodeMaintenanceRequestStatus,
    NodeRef, SetView, SpecView, StatusView, PREPARED_CONDITION_TYPE,
};
use crate::maintenance::controller::{
    MaintenancePod, Preflight, ReconcileEvent, ReconcileOutcome, ReconcileState, SetTopology,
};
use crate::maintenance::{observability, release, status};

verus! {

/// What [`status::position_of_type`] points at.
pub proof fn lemma_position_of_type(conditions: Seq<ConditionView>, type_: Seq<char>)
    ensures
        0 <= status::position_of_type(conditions, type_) <= conditions.len(),
        status::position_of_type(conditions, type_) < conditions.len()
            ==> conditions[status::position_of_type(conditions, type_)].type_ == type_,
        forall|i: int|
            0 <= i < status::position_of_type(conditions, type_) ==> (
            #[trigger] conditions[i]).type_ != type_,
    decreases conditions.len(),
{
    if conditions.len() > 0 && conditions.first().type_ != type_ {
        let rest = conditions.drop_first();
        lemma_position_of_type(rest, type_);
        let p = status::position_of_type(conditions, type_);
        assert forall|i: int| 0 <= i < p implies (#[trigger] conditions[i]).type_ != type_ by {
            if i > 0 {
                assert(rest[i - 1] == conditions[i]);
            }
        }
        if p < conditions.len() {
            assert(rest[p - 1] == conditions[p]);
        }
    }
}

/// The position is the only index with the property that
/// [`lemma_position_of_type`] states.
proof fn lemma_position_is(conditions: Seq<ConditionView>, type_: Seq<char>, p: int)
    requires
        0 <= p < conditions.len(),
        conditions[p].type_ == type_,
        forall|i: int| 0 <= i < p ==> (#[trigger] conditions[i]).type_ != type_,
    ensures
        status::position_of_type(conditions, type_) == p,
{
    lemma_position_of_type(conditions, type_);
    let q = status::position_of_type(conditions, type_);
    if q < p {
        assert(conditions[q].type_ != type_);
    }
}

/// Putting a condition leaves it as the first one of its type.
proof fn lemma_with_condition(conditions: Seq<ConditionView>, fresh: ConditionView)
    ensures
        ({
            let after = status::with_condition(conditions, fresh);
            let p = status::position_of_type(after, fresh.type_);
            &&& p == status::position_of_type(conditions, fresh.type_)
            &&& 0 <= p < after.len()
            &&& after[p].type_ == fresh.type_
            &&& after[p].status == fresh.status
            &&& after[p].reason == fresh.reason
            &&& after[p].message == fresh.message
            &&& after[p].observed_generation == fresh.observed_generation
        }),
{
    lemma_position_of_type(conditions, fresh.type_);
    let after = status::with_condition(conditions, fresh);
    let p = status::position_of_type(conditions, fresh.type_);
    assert forall|i: int| 0 <= i < p implies (#[trigger] after[i]).type_ != fresh.type_ by {
        assert(conditions[i].type_ != fresh.type_);
    }
    lemma_position_is(after, fresh.type_, p);
}

/// The condition that reports preparation, where there is one.
pub open spec fn reported_condition(status: StatusView) -> Option<ConditionView> {
    let p = status::position_of_type(status.conditions, PREPARED_CONDITION_TYPE@);
    if 0 <= p < status.conditions.len() {
        Some(status.conditions[p])
    } else {
        None
    }
}

/// A settled status reports the node as prepared if and only if the request is in
/// the phase `Prepared`, and only then carries the time of preparation.
pub proof fn only_prepared_requests_report_readiness(
    before: StatusView,
    phase: MaintenancePhase,
    reason: Option<MaintenanceBlockedReason>,
    message: Option<Seq<char>>,
    now: Seq<char>,
)
    ensures
        ({
            let after = before.finished(phase, reason, message, now);
            &&& after.phase == phase
            &&& after.blocked_reason == reason
            &&& reported_condition(after) is Some
            &&& reported_condition(after)->Some_0.status == "True"@ <==> phase is Prepared
            &&& after.prepared_at is Some <==> phase is Prepared
        }),
{
    reveal_strlit("True");
    reveal_strlit("False");
    assert("True"@.len() != "False"@.len());
    lemma_with_condition(
        before.conditions,
        status::prepared_condition(phase, reason, message, before.observed_generation, now),
    );
}

/// Settling a status a second time in the same way changes nothing, whatever the
/// time: the times of preparation and of the last transition are kept.
pub proof fn settling_is_idempotent(
    before: StatusView,
    phase: MaintenancePhase,
    reason: Option<MaintenanceBlockedReason>,
    message: Option<Seq<char>>,
    now: Seq<char>,
    later: Seq<char>,
)
    ensures
        before.finished(phase, reason, message, now).finished(phase, reason, message, later)
            == before.finished(phase, reason, message, now),
{
    let fresh = status::prepared_condition(
        phase,
        reason,
        message,
        before.observed_generation,
        now,
    );
    lemma_with_condition(before.conditions, fresh);
    let first = before.finished(phase, reason, message, now);
    let second = first.finished(phase, reason, message, later);
    assert(second.conditions =~= first.conditions);
}

/// While a release waits, trying it again under the same circumstances changes
/// nothing, whatever the time.
pub proof fn waiting_for_release_is_idempotent(
    spec: SpecView,
    before: StatusView,
    node: Option<NodeRef>,
    now: Seq<char>,
    later: Seq<char>,
)
    requires
        before.after_release(spec, node, now).phase is Releasing,
    ensures
        before.after_release(spec, node, now).after_release(spec, node, later)
            == before.after_release(spec, node, now),
{
    let after = before.after_release(spec, node, now);
    settling_is_idempotent(before, after.phase, after.blocked_reason, after.message, now, later);
}

/// A node that is there is released if and only if it is ready and no other
/// incarnation of it is expected. The release records this incarnation.
pub proof fn release_needs_the_expected_ready_node(
    spec: SpecView,
    before: StatusView,
    node: NodeRef,
    now: Seq<char>,
)
    ensures
        ({
            let after = before.after_release(spec, Some(node), now);
            let expected = release::expected_uid(spec, before);
            &&& after.phase is Released <==> node.ready && (expected is None || expected == Some(
                node.uid@,
            ))
            &&& after.phase is Released ==> after.released_node_uid == Some(node.uid@)
                && after.released_at == Some(now)
            &&& expected is Some && expected != Some(node.uid@) ==> after.blocked_reason == Some(
                MaintenanceBlockedReason::NodeIncarnationChanged,
            )
        }),
{
}

/// An absent node is released if and only if no incarnation was asked for and the
/// request is cancelled or allows the node to disappear.
pub proof fn absent_nodes_are_released_only_when_allowed(
    spec: SpecView,
    before: StatusView,
    now: Seq<char>,
)
    ensures
        ({
            let after = before.after_release(spec, None, now);
            &&& after.phase is Released <==> spec.release_node_uid is None && (
            spec.desired_state is Cancel || spec.node_recovery is MayDisappear)
            &&& !(after.phase is Released) ==> after.blocked_reason == Some(
                MaintenanceBlockedReason::NodeNotFound,
            )
            &&& after.released_node_uid == before.released_node_uid
        }),
{
}

/// A release attempt either releases the node or leaves it excluded with a reason
/// and without a time of release. Either way preparation is no longer reported.
pub proof fn release_is_all_or_nothing(
    spec: SpecView,
    before: StatusView,
    node: Option<NodeRef>,
    now: Seq<char>,
)
    ensures
        ({
            let after = before.after_release(spec, node, now);
            &&& after.phase is Released || after.phase is Releasing
            &&& after.phase is Released <==> after.blocked_reason is None
            &&& after.phase.spec_excludes_primary_placement() <==> after.phase is Releasing
            &&& after.phase is Releasing ==> after.released_at == before.released_at
                && after.released_node_uid == before.released_node_uid
            &&& after.phase is Released ==> after.released_at == Some(now)
            &&& after.prepared_at is None
            &&& reported_condition(after) is Some
            &&& reported_condition(after)->Some_0.status == "False"@
        }),
{
    let after = before.after_release(spec, node, now);
    lemma_with_condition(
        before.conditions,
        status::prepared_condition(
            after.phase,
            after.blocked_reason,
            after.message,
            before.observed_generation,
            now,
        ),
    );
}

/// A release attempt keeps the identity of the prepared node and the inventory of
/// replica sets.
pub proof fn release_keeps_the_record(
    spec: SpecView,
    before: StatusView,
    node: Option<NodeRef>,
    now: Seq<char>,
)
    ensures
        ({
            let after = before.after_release(spec, node, now);
            &&& after.node_uid == before.node_uid
            &&& after.affected_sets == before.affected_sets
            &&& after.prepared_sets == before.prepared_sets
            &&& after.observed_generation == before.observed_generation
            &&& after.observed_desired_state == before.observed_desired_state
        }),
{
}

/// What the check of the node comes to does not depend on how replicas are to be
/// recovered.
pub proof fn release_ignores_replica_recovery(
    one: SpecView,
    other: SpecView,
    before: StatusView,
    node: Option<NodeRef>,
    now: Seq<char>,
)
    requires
        other == (SpecView { replica_recovery: other.replica_recovery, ..one }),
    ensures
        before.after_release(one, node, now) == before.after_release(other, node, now),
{
}

/// Trying a release again under the same circumstances is worth no event.
pub proof fn repeated_waiting_is_silent(
    spec: SpecView,
    before: StatusView,
    node: Option<NodeRef>,
    now: Seq<char>,
    later: Seq<char>,
    persisted: bool,
)
    requires
        before.after_release(spec, node, now).phase is Releasing,
    ensures
        ({
            let first = before.after_release(spec, node, now);
            !observability::is_transition(first, first.after_release(spec, node, later), persisted)
        }),
{
    waiting_for_release_is_idempotent(spec, before, node, now, later);
}

/// A status is written only where it differs from the previous one, and a reconcile
/// succeeds without writing only with the previous status.
pub proof fn unchanged_status_is_never_written(
    previous: NodeMaintenanceRequestStatus,
    before: ReconcileState,
    event: ReconcileEvent,
    after: ReconcileState,
)
    requires
        before.spec_expects(event),
        after.follows(previous, before, event),
    ensures
        after matches ReconcileState::WriteStatus { status } ==> status@ != previous@,
        after matches ReconcileState::Finished { outcome: Ok(outcome) } ==> outcome.persisted == (
        before is WriteStatus),
        after matches ReconcileState::Finished { outcome: Ok(outcome) } ==> (!outcome.persisted
            ==> outcome.status@ == previous@),
        before is WriteStatus && event == ReconcileEvent::StatusWritten(Ok(())) ==> (
        after matches ReconcileState::Finished { outcome: Ok(outcome) } && outcome.status
            == before->WriteStatus_status),
{
}

/// The cluster is read only for a request that preflight leaves open; its pods are
/// listed only for a node that exists; and an absent node is discovered with no
/// pods.
pub proof fn reads_are_made_only_when_needed(
    previous: NodeMaintenanceRequestStatus,
    before: ReconcileState,
    event: ReconcileEvent,
    after: ReconcileState,
)
    requires
        before.spec_expects(event),
        after.follows(previous, before, event),
    ensures
        before is Preflight && event->Preflighted_0 is Settled ==> after is WriteStatus
            || after is Finished,
        after is ReadNode ==> before is Preflight && event->Preflighted_0 is Discover,
        after matches ReconcileState::ListPods { node } ==> event == ReconcileEvent::NodeRead(
            Ok(Some(node)),
        ),
        after matches ReconcileState::Discover { found: None, pods } ==> pods@.len() == 0,
        after is ReadTopology ==> before is Discover || before is ReadTopology,
{
}

/// A request is judged by exactly one topology for each affected set, in the order
/// of the sets, and a request without affected sets by none.
pub proof fn each_affected_set_is_read_once(
    previous: NodeMaintenanceRequestStatus,
    before: ReconcileState,
    event: ReconcileEvent,
    after: ReconcileState,
)
    requires
        before.well_formed(),
        before.spec_expects(event),
        after.follows(previous, before, event),
    ensures
        after matches ReconcileState::Prepare { discovered, topologies } ==> topologies@.len()
            == discovered.affected_sets@.len(),
        before is ReadTopology && (after is ReadTopology || after is Prepare) ==> {
            let (discovered, topologies) = match after {
                ReconcileState::ReadTopology { discovered, topologies } => (discovered, topologies),
                ReconcileState::Prepare { discovered, topologies } => (discovered, topologies),
                _ => (before->ReadTopology_discovered, before->ReadTopology_topologies),
            };
            &&& discovered == before->ReadTopology_discovered
            &&& topologies@.drop_last() == before->ReadTopology_topologies@
            &&& event == ReconcileEvent::TopologyRead(Ok(topologies@.last()))
        },
        before is Discover && event->Discovered_0.blocked_reason is None
            && event->Discovered_0.affected_sets@.len() == 0 ==> after is Prepare,
{
    if before is ReadTopology {
        let read = before->ReadTopology_topologies@;
        if event->TopologyRead_0 is Ok {
            assert(read.push(event->TopologyRead_0->Ok_0).drop_last() =~= read);
        }
    }
}

/// A failed read or write ends the reconcile with its reason.
pub proof fn failures_end_the_reconcile(
    previous: NodeMaintenanceRequestStatus,
    before: ReconcileState,
    event: ReconcileEvent,
    after: ReconcileState,
    reason: String,
)
    requires
        before.spec_expects(event),
        after.follows(previous, before, event),
        event == ReconcileEvent::NodeRead(Err(reason)) || event == ReconcileEvent::PodsListed(
            Err(reason),
        ) || event == ReconcileEvent::TopologyRead(Err(reason)) || event
            == ReconcileEvent::StatusWritten(Err(reason)),
    ensures
        after == (ReconcileState::Finished { outcome: Err(reason) }),
{
}

/// How far a reconcile is from its end: the stage that it is in, and the topologies
/// that are still to be read.
pub open spec fn work_left(state: ReconcileState) -> (int, int) {
    match state {
        ReconcileState::Preflight => (7, 0),
        ReconcileState::ReadNode => (6, 0),
        ReconcileState::ListPods { .. } => (5, 0),
        ReconcileState::Discover { .. } => (4, 0),
        ReconcileState::ReadTopology { discovered, topologies } => (
            3,
            discovered.affected_sets@.len() - topologies@.len(),
        ),
        ReconcileState::Prepare { .. } => (2, 0),
        ReconcileState::WriteStatus { .. } => (1, 0),
        ReconcileState::Finished { .. } => (0, 0),
    }
}

/// Every step brings a reconcile nearer to its end.
pub proof fn every_step_advances(
    previous: NodeMaintenanceRequestStatus,
    before: ReconcileState,
    event: ReconcileEvent,
    after: ReconcileState,
)
    requires
        before.well_formed(),
        before.spec_expects(event),
        after.follows(previous, before, event),
    ensures
        work_left(after).1 >= 0,
        work_left(after).0 < work_left(before).0 || work_left(after).0 == work_left(before).0
            && work_left(after).1 < work_left(before).1,
{
}

/// What the cluster answers and how the request is judged in the course of a
/// reconcile.
pub struct ReconcileInputs {
    pub preflight: Preflight,
    pub node: Result<Option<NodeRef>, String>,
    pub pods: Result<Vec<MaintenancePod>, String>,
    pub discovered: NodeMaintenanceRequestStatus,
    /// The topology of each affected set, or why it could not be read.
    pub topologies: Seq<Result<Option<SetTopology>, String>>,
    pub prepared: NodeMaintenanceRequestStatus,
    pub written: Result<(), String>,
}

/// The reason of the first failure among `reads`.
pub open spec fn first_failure(reads: Seq<Result<Option<SetTopology>, String>>) -> Option<String>
    decreases reads.len(),
{
    if reads.len() == 0 {
        None
    } else {
        match reads.first() {
            Err(reason) => Some(reason),
            Ok(_) => first_failure(reads.drop_first()),
        }
    }
}

impl ReconcileInputs {
    /// What comes of a state.
    pub open spec fn event(self, state: ReconcileState) -> ReconcileEvent {
        match state {
            ReconcileState::Preflight => ReconcileEvent::Preflighted(self.preflight),
            ReconcileState::ReadNode => ReconcileEvent::NodeRead(self.node),
            ReconcileState::ListPods { .. } => ReconcileEvent::PodsListed(self.pods),
            ReconcileState::Discover { .. } => ReconcileEvent::Discovered(self.discovered),
            ReconcileState::ReadTopology { topologies, .. } => ReconcileEvent::TopologyRead(
                self.topologies[topologies@.len() as int],
            ),
            ReconcileState::Prepare { .. } => ReconcileEvent::Prepared(self.prepared),
            _ => ReconcileEvent::StatusWritten(self.written),
        }
    }

    /// The outcome once the request is judged to have `status`.
    pub open spec fn settled(
        self,
        previous: NodeMaintenanceRequestStatus,
        status: NodeMaintenanceRequestStatus,
    ) -> Result<ReconcileOutcome, String> {
        if status@ == previous@ {
            Ok(ReconcileOutcome { status, persisted: false })
        } else {
            match self.written {
                Ok(()) => Ok(ReconcileOutcome { status, persisted: true }),
                Err(reason) => Err(reason),
            }
        }
    }

    /// The status that the request is judged to have, or the first failure on the way.
    pub open spec fn judgement(self) -> Result<NodeMaintenanceRequestStatus, String> {
        match self.preflight {
            Preflight::Settled(status) => Ok(status),
            Preflight::Discover => match (self.node, self.pods) {
                (Err(reason), _) => Err(reason),
                (Ok(Some(_)), Err(reason)) => Err(reason),
                _ => if self.discovered.blocked_reason is Some {
                    Ok(self.discovered)
                } else {
                    match first_failure(
                        self.topologies.take(self.discovered.affected_sets@.len() as int),
                    ) {
                        Some(reason) => Err(reason),
                        None => Ok(self.prepared),
                    }
                },
            },
        }
    }

    /// The outcome once the affected sets are known.
    pub open spec fn judged(self, previous: NodeMaintenanceRequestStatus) -> Result<
        ReconcileOutcome,
        String,
    > {
        if self.discovered.blocked_reason is Some {
            self.settled(previous, self.discovered)
        } else {
            match first_failure(
                self.topologies.take(self.discovered.affected_sets@.len() as int),
            ) {
                Some(reason) => Err(reason),
                None => self.settled(previous, self.prepared),
            }
        }
    }

    /// The outcome of the whole reconcile.
    pub open spec fn outcome(self, previous: NodeMaintenanceRequestStatus) -> Result<
        ReconcileOutcome,
        String,
    > {
        match self.preflight {
            Preflight::Settled(status) => self.settled(previous, status),
            Preflight::Discover => match (self.node, self.pods) {
                (Err(reason), _) => Err(reason),
                (Ok(Some(_)), Err(reason)) => Err(reason),
                _ => self.judged(previous),
            },
        }
    }

    /// The outcome of what is left to do in `state`.
    spec fn outcome_from(
        self,
        previous: NodeMaintenanceRequestStatus,
        state: ReconcileState,
    ) -> Result<ReconcileOutcome, String> {
        match state {
            ReconcileState::Preflight => self.outcome(previous),
            ReconcileState::ReadNode => match (self.node, self.pods) {
                (Err(reason), _) => Err(reason),
                (Ok(Some(_)), Err(reason)) => Err(reason),
                _ => self.judged(previous),
            },
            ReconcileState::ListPods { .. } => match self.pods {
                Err(reason) => Err(reason),
                Ok(_) => self.judged(previous),
            },
            ReconcileState::Discover { .. } => self.judged(previous),
            ReconcileState::ReadTopology { topologies, .. } => match first_failure(
                self.topologies.subrange(
                    topologies@.len() as int,
                    self.discovered.affected_sets@.len() as int,
                ),
            ) {
                Some(reason) => Err(reason),
                None => self.settled(previous, self.prepared),
            },
            ReconcileState::Prepare { .. } => self.settled(previous, self.prepared),
            ReconcileState::WriteStatus { status } => match self.written {
                Ok(()) => Ok(ReconcileOutcome { status, persisted: true }),
                Err(reason) => Err(reason),
            },
            ReconcileState::Finished { outcome } => outcome,
        }
    }

    /// Whether `state` belongs to a reconcile with these inputs.
    spec fn reaches(self, state: ReconcileState) -> bool {
        &&& state.well_formed()
        &&& state matches ReconcileState::ReadTopology { discovered, .. } ==> discovered
            == self.discovered
        &&& self.topologies.len() >= self.discovered.affected_sets@.len()
    }
}

/// Whether a reconcile with the given inputs goes through `states`.
pub open spec fn is_reconcile(
    previous: NodeMaintenanceRequestStatus,
    inputs: ReconcileInputs,
    states: Seq<ReconcileState>,
) -> bool {
    &&& states.len() > 0
    &&& states[0] == ReconcileState::Preflight
    &&& forall|i: int|
        0 <= i < states.len() - 1 ==> !(#[trigger] states[i] is Finished) && states[i
            + 1].well_formed() && states[i + 1].follows(
            previous,
            states[i],
            inputs.event(states[i]),
        )
    &&& states.last() is Finished
}

proof fn lemma_step_keeps_outcome(
    previous: NodeMaintenanceRequestStatus,
    inputs: ReconcileInputs,
    before: ReconcileState,
    after: ReconcileState,
)
    requires
        inputs.reaches(before),
        !(before is Finished),
        after.well_formed(),
        after.follows(previous, before, inputs.event(before)),
    ensures
        inputs.reaches(after),
        inputs.outcome_from(previous, after) == inputs.outcome_from(previous, before),
{
    let sets = inputs.discovered.affected_sets@.len() as int;
    match before {
        ReconcileState::Discover { .. } => {
            let all = inputs.topologies.take(sets);
            assert(inputs.topologies.subrange(0, sets) =~= all);
            if sets == 0 {
                assert(first_failure(all) is None);
            }
        },
        ReconcileState::ReadTopology { topologies, .. } => {
            let k = topologies@.len() as int;
            let left = inputs.topologies.subrange(k, sets);
            assert(left.first() == inputs.topologies[k]);
            assert(left.drop_first() =~= inputs.topologies.subrange(k + 1, sets));
            if k + 1 == sets {
                assert(first_failure(left.drop_first()) is None);
            }
        },
        _ => {},
    }
}

proof fn lemma_outcome_of_rest(
    previous: NodeMaintenanceRequestStatus,
    inputs: ReconcileInputs,
    states: Seq<ReconcileState>,
    i: int,
)
    requires
        is_reconcile(previous, inputs, states),
        0 <= i < states.len(),
        inputs.reaches(states[i]),
    ensures
        states.last()->outcome == inputs.outcome_from(previous, states[i]),
    decreases states.len() - i,
{
    if i < states.len() - 1 {
        assert(!(states[i] is Finished));
        lemma_step_keeps_outcome(previous, inputs, states[i], states[i + 1]);
        lemma_outcome_of_rest(previous, inputs, states, i + 1);
    }
}

/// A reconcile as a whole: a request that preflight settles has that status. Any
/// other is discovered by its node and, if that exists, by the pods of the cluster;
/// one that is not blocked then is judged by the topologies of its affected sets.
/// The status is written if it differs from the previous one, and the first failure
/// on the way is the outcome.
pub proof fn reconciles_come_to_their_outcome(
    previous: NodeMaintenanceRequestStatus,
    inputs: ReconcileInputs,
    states: Seq<ReconcileState>,
)
    requires
        is_reconcile(previous, inputs, states),
        inputs.topologies.len() >= inputs.discovered.affected_sets@.len(),
    ensures
        states.last()->outcome == inputs.outcome(previous),
{
    lemma_outcome_of_rest(previous, inputs, states, 0);
}

/// The outcome of a reconcile is that of writing the status which the request is
/// judged to have.
pub proof fn outcomes_follow_the_judgement(
    previous: NodeMaintenanceRequestStatus,
    inputs: ReconcileInputs,
)
    ensures
        inputs.outcome(previous) == (match inputs.judgement() {
            Ok(status) => inputs.settled(previous, status),
            Err(reason) => Err(reason),
        }),
{
}

proof fn lemma_states_are_reached(
    previous: NodeMaintenanceRequestStatus,
    inputs: ReconcileInputs,
    states: Seq<ReconcileState>,
    i: int,
)
    requires
        is_reconcile(previous, inputs, states),
        inputs.topologies.len() >= inputs.discovered.affected_sets@.len(),
        0 <= i < states.len(),
    ensures
        inputs.reaches(states[i]),
    decreases i,
{
    if i > 0 {
        lemma_states_are_reached(previous, inputs, states, i - 1);
        assert(!(states[i - 1] is Finished));
        lemma_step_keeps_outcome(previous, inputs, states[i - 1], states[i]);
    }
}

/// A reconcile whose outcome was not persisted never tried to write.
proof fn lemma_unpersisted_runs_never_write(
    previous: NodeMaintenanceRequestStatus,
    inputs: ReconcileInputs,
    states: Seq<ReconcileState>,
)
    requires
        is_reconcile(previous, inputs, states),
        inputs.topologies.len() >= inputs.discovered.affected_sets@.len(),
        inputs.outcome(previous) is Ok,
        !inputs.outcome(previous)->Ok_0.persisted,
    ensures
        forall|i: int| 0 <= i < states.len() ==> !(#[trigger] states[i] is WriteStatus),
{
    reconciles_come_to_their_outcome(previous, inputs, states);
    assert forall|i: int| 0 <= i < states.len() implies !(#[trigger] states[i] is WriteStatus) by {
        lemma_states_are_reached(previous, inputs, states, i);
        lemma_outcome_of_rest(previous, inputs, states, i);
    }
}

/// A duplicate delivery writes nothing: after a reconcile has succeeded, another one
/// that starts from its status, finds the same and judges the same succeeds with the
/// same status and never comes to a write.
pub proof fn duplicate_deliveries_write_nothing(
    previous: NodeMaintenanceRequestStatus,
    inputs: ReconcileInputs,
    first: ReconcileOutcome,
    states: Seq<ReconcileState>,
)
    requires
        inputs.outcome(previous) == Ok::<ReconcileOutcome, String>(first),
        inputs.topologies.len() >= inputs.discovered.affected_sets@.len(),
        is_reconcile(first.status, inputs, states),
    ensures
        states.last()->outcome is Ok,
        !states.last()->outcome->Ok_0.persisted,
        states.last()->outcome->Ok_0.status@ == first.status@,
        forall|i: int| 0 <= i < states.len() ==> !(#[trigger] states[i] is WriteStatus),
{
    reconciles_come_to_their_outcome(first.status, inputs, states);
    lemma_unpersisted_runs_never_write(first.status, inputs, states);
}

/// A later reconcile that settles the status of an earlier one in the same way again
/// writes nothing, though time has passed: the time of preparation is kept with the
/// rest of the status.
pub proof fn repeated_judgements_write_nothing(
    previous: NodeMaintenanceRequestStatus,
    inputs: ReconcileInputs,
    before: StatusView,
    phase: MaintenancePhase,
    reason: Option<MaintenanceBlockedReason>,
    message: Option<Seq<char>>,
    now: Seq<char>,
    later: Seq<char>,
)
    requires
        previous@ == before.finished(phase, reason, message, now),
        inputs.judgement() is Ok,
        inputs.judgement()->Ok_0@ == previous@.finished(phase, reason, message, later),
    ensures
        inputs.outcome(previous) is Ok,
        !inputs.outcome(previous)->Ok_0.persisted,
        inputs.outcome(previous)->Ok_0.status@ == previous@,
{
    settling_is_idempotent(before, phase, reason, message, now, later);
    outcomes_follow_the_judgement(previous, inputs);
}

/// A request and the time at which it is reconciled.
pub struct Occasion {
    pub name: Seq<char>,
    pub spec: SpecView,
    pub generation: Option<i64>,
    pub now: Seq<char>,
}

/// What the cluster answers to each read.
pub struct ClusterReads {
    /// The node of the given name.
    pub node: spec_fn(Seq<char>) -> Result<Option<NodeRef>, String>,
    pub pods: Result<Vec<MaintenancePod>, String>,
    /// The topology of the given set.
    pub topology: spec_fn(SetView) -> Result<Option<SetTopology>, String>,
}

impl ClusterReads {
    /// The node of a request, if it could be read and exists.
    pub open spec fn found(self, occasion: Occasion) -> Option<NodeRef> {
        match (self.node)(occasion.spec.node_name) {
            Ok(found) => found,
            Err(_) => None,
        }
    }

    /// The pods, where they are listed.
    pub open spec fn listed(self, occasion: Occasion) -> Seq<MaintenancePod> {
        match (self.found(occasion), self.pods) {
            (Some(_), Ok(pods)) => pods@,
            _ => Seq::empty(),
        }
    }

    /// What is read of each affected set.
    pub open spec fn topologies(self, discovered: NodeMaintenanceRequestStatus) -> Seq<
        Result<Option<SetTopology>, String>,
    > {
        Seq::new(
            discovered.affected_sets@.len(),
            |i: int| (self.topology)(discovered.affected_sets@[i]@),
        )
    }
}

/// How requests are judged, each time from the status before and from what was read.
pub struct Judges {
    pub preflight: spec_fn(Occasion, NodeMaintenanceRequestStatus) -> Preflight,
    pub discover: spec_fn(
        Occasion,
        NodeMaintenanceRequestStatus,
        Option<NodeRef>,
        Seq<MaintenancePod>,
    ) -> NodeMaintenanceRequestStatus,
    pub prepare: spec_fn(
        Occasion,
        NodeMaintenanceRequestStatus,
        Seq<Result<Option<SetTopology>, String>>,
    ) -> NodeMaintenanceRequestStatus,
}

impl Judges {
    /// The inputs of a reconcile that starts from `previous`.
    pub open spec fn inputs(
        self,
        occasion: Occasion,
        reads: ClusterReads,
        written: Result<(), String>,
        previous: NodeMaintenanceRequestStatus,
    ) -> ReconcileInputs {
        let discovered = (self.discover)(
            occasion,
            previous,
            reads.found(occasion),
            reads.listed(occasion),
        );
        let topologies = reads.topologies(discovered);
        ReconcileInputs {
            preflight: (self.preflight)(occasion, previous),
            node: (reads.node)(occasion.spec.node_name),
            pods: reads.pods,
            discovered,
            topologies,
            prepared: (self.prepare)(occasion, discovered, topologies),
            written,
        }
    }

    /// The status that a request with the status `previous` is judged to have.
    pub open spec fn judgement(
        self,
        occasion: Occasion,
        reads: ClusterReads,
        previous: NodeMaintenanceRequestStatus,
    ) -> Result<NodeMaintenanceRequestStatus, String> {
        self.inputs(occasion, reads, Ok(()), previous).judgement()
    }

    /// Whether a request with the status `previous`, if it is judged to be preparing or
    /// prepared, is judged to be just that when it is judged again.
    pub open spec fn gives_back(
        self,
        occasion: Occasion,
        reads: ClusterReads,
        previous: NodeMaintenanceRequestStatus,
    ) -> bool {
        let judged = self.judgement(occasion, reads, previous);
        let again = self.judgement(occasion, reads, judged->Ok_0);
        judged is Ok && in_preparation(judged->Ok_0) ==> again is Ok && again->Ok_0@
            == judged->Ok_0@
    }

    /// Whether the judges give back their own results, whatever the status was before.
    pub open spec fn give_back_their_results(self, occasion: Occasion, reads: ClusterReads) -> bool {
        forall|previous: NodeMaintenanceRequestStatus| #[trigger]
            self.gives_back(occasion, reads, previous)
    }
}

/// Whether a request is preparing or prepared.
pub open spec fn in_preparation(status: NodeMaintenanceRequestStatus) -> bool {
    status.phase is Preparing || status.phase is Prepared
}

/// Reconciling a request that is preparing or prepared once more, at the same time and
/// with the same answers of the cluster, leaves its status with the time of its
/// preparation as it is and writes nothing, where the judges give back their own
/// results. It does not matter whether writing would succeed.
pub proof fn repeated_reconciles_write_nothing(
    judges: Judges,
    occasion: Occasion,
    reads: ClusterReads,
    previous: NodeMaintenanceRequestStatus,
    first_written: Result<(), String>,
    first: Seq<ReconcileState>,
    second_written: Result<(), String>,
    second: Seq<ReconcileState>,
)
    requires
        judges.give_back_their_results(occasion, reads),
        is_reconcile(previous, judges.inputs(occasion, reads, first_written, previous), first),
        first.last()->outcome is Ok,
        in_preparation(first.last()->outcome->Ok_0.status),
        is_reconcile(
            first.last()->outcome->Ok_0.status,
            judges.inputs(
                occasion,
                reads,
                second_written,
                first.last()->outcome->Ok_0.status,
            ),
            second,
        ),
    ensures
        ({
            let before = first.last()->outcome->Ok_0.status;
            let after = second.last()->outcome->Ok_0;
            &&& second.last()->outcome is Ok
            &&& after.status@ == before@
            &&& after.status@.prepared_at == before@.prepared_at
            &&& !after.persisted
        }),
        forall|i: int| 0 <= i < second.len() ==> !(#[trigger] second[i] is WriteStatus),
{
    let one = judges.inputs(occasion, reads, first_written, previous);
    reconciles_come_to_their_outcome(previous, one, first);
    outcomes_follow_the_judgement(previous, one);
    assert(one.judgement() == judges.judgement(occasion, reads, previous));
    assert(judges.gives_back(occasion, reads, previous));
    let status = first.last()->outcome->Ok_0.status;
    let other = judges.inputs(occasion, reads, second_written, status);
    assert(other.judgement() == judges.judgement(occasion, reads, status));
    reconciles_come_to_their_outcome(status, other, second);
    outcomes_follow_the_judgement(status, other);
    lemma_unpersisted_runs_never_write(status, other, second);
}

/// Judges whose verdict does not rest on the status before give back their own results:
/// those for whom the request and the cluster fix all of a status but the conditions and
/// the time of preparation, which are carried on as settling does.
pub proof fn settled_verdicts_are_given_back(
    judges: Judges,
    occasion: Occasion,
    reads: ClusterReads,
    verdict: StatusView,
)
    requires
        forall|previous: NodeMaintenanceRequestStatus|
            (#[trigger] judges.judgement(occasion, reads, previous)) is Ok && judges.judgement(
                occasion,
                reads,
                previous,
            )->Ok_0@ == carried_on(verdict, previous@).finished(
                verdict.phase,
                verdict.blocked_reason,
                verdict.message,
                occasion.now,
            ),
    ensures
        judges.give_back_their_results(occasion, reads),
{
    assert forall|previous: NodeMaintenanceRequestStatus| #[trigger]
        judges.gives_back(occasion, reads, previous) by {
        let status = judges.judgement(occasion, reads, previous)->Ok_0;
        let again = judges.judgement(occasion, reads, status);
        settling_is_idempotent(
            carried_on(verdict, previous@),
            verdict.phase,
            verdict.blocked_reason,
            verdict.message,
            occasion.now,
            occasion.now,
        );
        assert(again->Ok_0@ == status@);
    }
}

/// `verdict` with the conditions and the time of preparation of `before`.
pub open spec fn carried_on(verdict: StatusView, before: StatusView) -> StatusView {
    StatusView { conditions: before.conditions, prepared_at: before.prepared_at, ..verdict }
}

} // verus!
