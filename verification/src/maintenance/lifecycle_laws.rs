//! What holds of a lifecycle scenario that has come to its end.

use vstd::prelude::*;

use crate::maintenance::api::{
    MaintenanceBlockedReason, MaintenanceDesiredState, MaintenancePhase, StatusView,
};
use crate::maintenance::lifecycle::{
    self, Change, Command, Incarnation, Memory, Observation, Scenario, SeenEvent,
    SeenRequest, Subject,
};
use crate::text;

verus! {

/// Whether a scenario goes through `scenarios` to its end, with `observations` of what
/// came of its commands.
pub open spec fn is_scenario(scenarios: Seq<Scenario>, observations: Seq<Observation>) -> bool {
    &&& scenarios.len() == observations.len() + 1
    &&& scenarios[0].spec_position() == 0
    &&& scenarios[0].memory() == Memory::empty()
    &&& forall|i: int|
        0 <= i < observations.len() ==> (#[trigger] scenarios[i]).goes_on(
            observations[i],
            scenarios[i + 1],
        )
    &&& scenarios.last().spec_command() is Finish
}

proof fn lemma_scenario_position(
    scenarios: Seq<Scenario>,
    observations: Seq<Observation>,
    i: int,
)
    requires
        is_scenario(scenarios, observations),
        0 <= i <= observations.len(),
    ensures
        scenarios[i].spec_position() == i,
    decreases i,
{
    if i > 0 {
        lemma_scenario_position(scenarios, observations, i - 1);
        assert(scenarios[i - 1].goes_on(observations[i - 1], scenarios[i]));
    }
}

/// A scenario that comes to its end has carried out all commands in order, and what came
/// of each was as expected.
pub proof fn finished_scenarios_went_as_expected(
    scenarios: Seq<Scenario>,
    observations: Seq<Observation>,
)
    requires
        is_scenario(scenarios, observations),
    ensures
        observations.len() == lifecycle::script().len() - 1,
        forall|i: int|
            0 <= i < observations.len() ==> #[trigger] scenarios[i].memory().expects(
                lifecycle::script()[i],
                observations[i],
            ),
{
    let script = lifecycle::script();
    let last = script.len() - 1;
    let n = observations.len() as int;
    lemma_scenario_position(scenarios, observations, n);
    assert forall|i: int| 0 <= i < n implies #[trigger] scenarios[i].memory().expects(
        script[i],
        observations[i],
    ) by {
        lemma_scenario_position(scenarios, observations, i);
        assert(scenarios[i].goes_on(observations[i], scenarios[i + 1]));
    }
    assert(script[last] is Finish);
    if n > last {
        assert(scenarios[last].memory().expects(script[last], observations[last]));
    }
    if n < last {
        assert(forall|i: int| 0 <= i < last ==> !(#[trigger] script[i] is Finish));
    }
}

proof fn lemma_scenario_memory(
    scenarios: Seq<Scenario>,
    observations: Seq<Observation>,
    incarnation: Incarnation,
    created: int,
    i: int,
)
    requires
        is_scenario(scenarios, observations),
        0 <= created < i <= observations.len(),
        lifecycle::script()[created] == Command::CreateNode(incarnation),
        forall|j: int|
            created < j < i ==> #[trigger] lifecycle::script()[j] != Command::CreateNode(
                incarnation,
            ),
    ensures
        ({
            let uid = text::opt_text(observations[created]->Created_uid);
            match incarnation {
                Incarnation::Original => scenarios[i].memory().original == uid,
                Incarnation::Replacement => scenarios[i].memory().replacement == uid,
            }
        }),
    decreases i,
{
    lemma_scenario_position(scenarios, observations, i - 1);
    assert(scenarios[i - 1].goes_on(observations[i - 1], scenarios[i]));
    if i - 1 > created {
        lemma_scenario_memory(scenarios, observations, incarnation, created, i - 1);
        assert(lifecycle::script()[i - 1] != Command::CreateNode(incarnation));
    }
}

/// Steps of a scenario.
pub struct Milestones {
    pub original_created: int,
    pub first_prepared: int,
    pub second_prepared: int,
    pub first_completed: int,
    pub stale_write: int,
    pub first_released: int,
    pub excluded_after_first: int,
    pub second_waiting: int,
    pub excluded_while_waiting: int,
    pub replacement_created: int,
    pub second_reincarnated: int,
    pub second_released: int,
    pub free_after_second: int,
    pub deletion_waiting: int,
    pub excluded_while_deleting: int,
    pub deleted: int,
    pub free_after_deletion: int,
}

/// Whether the request was seen at step `at` to have come to a phase.
pub open spec fn saw_phase(
    observations: Seq<Observation>,
    at: int,
    subject: Subject,
    phase: MaintenancePhase,
    reason: Option<MaintenanceBlockedReason>,
) -> bool {
    &&& lifecycle::script()[at] == Command::AwaitPhase(subject, phase, reason)
    &&& observations[at] matches Observation::Seen(seen)
    &&& seen.has_converged(phase, reason)
}

/// The status in which a request was seen at step `at`.
pub open spec fn seen_status(observations: Seq<Observation>, at: int) -> StatusView {
    observations[at]->Seen_0.status->Some_0@
}

/// Whether step `at` looked up whether the node is excluded from primary placement, and
/// found `excluded`.
pub open spec fn saw_exclusion(observations: Seq<Observation>, at: int, excluded: bool) -> bool {
    &&& lifecycle::script()[at] is LookUpExclusion
    &&& observations[at] == (Observation::Exclusion { excluded })
}

/// Whether step `at` created an incarnation of the node, with this UID.
pub open spec fn created_node(
    observations: Seq<Observation>,
    at: int,
    incarnation: Incarnation,
    uid: Option<Seq<char>>,
) -> bool {
    &&& lifecycle::script()[at] == Command::CreateNode(incarnation)
    &&& observations[at] matches Observation::Created { uid: created }
    &&& text::opt_text(created) == uid
}

impl Milestones {
    /// Whether the steps come one after the other.
    pub open spec fn in_order(self) -> bool {
        &&& 0 <= self.original_created < self.first_prepared < self.second_prepared
        &&& self.second_prepared < self.first_completed < self.stale_write
        &&& self.stale_write < self.first_released < self.excluded_after_first
        &&& self.excluded_after_first < self.second_waiting < self.excluded_while_waiting
        &&& self.excluded_while_waiting < self.replacement_created < self.second_reincarnated
        &&& self.second_reincarnated < self.second_released < self.free_after_second
        &&& self.free_after_second < self.deletion_waiting < self.excluded_while_deleting
        &&& self.excluded_while_deleting < self.deleted < self.free_after_deletion
    }

    /// Whether the node was found excluded while any request held it, and free once none
    /// did.
    pub open spec fn hold_the_node(self, observations: Seq<Observation>) -> bool {
        let not_ready = Some(MaintenanceBlockedReason::NodeNotReady);
        &&& saw_phase(
            observations,
            self.first_released,
            Subject::First,
            MaintenancePhase::Released,
            None,
        )
        &&& saw_exclusion(observations, self.excluded_after_first, true)
        &&& saw_phase(
            observations,
            self.second_waiting,
            Subject::Second,
            MaintenancePhase::Releasing,
            not_ready,
        )
        &&& saw_exclusion(observations, self.excluded_while_waiting, true)
        &&& saw_phase(
            observations,
            self.second_released,
            Subject::Second,
            MaintenancePhase::Released,
            None,
        )
        &&& saw_exclusion(observations, self.free_after_second, false)
        &&& saw_phase(
            observations,
            self.deletion_waiting,
            Subject::Deletion,
            MaintenancePhase::Releasing,
            not_ready,
        )
        &&& saw_exclusion(observations, self.excluded_while_deleting, true)
        &&& lifecycle::script()[self.deleted] == Command::AwaitDeleted(Subject::Deletion)
        &&& observations[self.deleted] is Done
        &&& saw_exclusion(observations, self.free_after_deletion, false)
    }

    /// Whether the requests kept the UID of the node that they were made for, though
    /// another took its place, and the second one recorded the UID of the other.
    pub open spec fn record_both_nodes(
        self,
        observations: Seq<Observation>,
        original: Option<Seq<char>>,
        replacement: Option<Seq<char>>,
    ) -> bool {
        &&& created_node(observations, self.original_created, Incarnation::Original, original)
        &&& created_node(
            observations,
            self.replacement_created,
            Incarnation::Replacement,
            replacement,
        )
        &&& replacement != original
        &&& saw_phase(
            observations,
            self.first_prepared,
            Subject::First,
            MaintenancePhase::Prepared,
            None,
        )
        &&& seen_status(observations, self.first_prepared).node_uid == original
        &&& saw_phase(
            observations,
            self.second_prepared,
            Subject::Second,
            MaintenancePhase::Prepared,
            None,
        )
        &&& seen_status(observations, self.second_prepared).node_uid == original
        &&& saw_phase(
            observations,
            self.second_reincarnated,
            Subject::Second,
            MaintenancePhase::Releasing,
            Some(MaintenanceBlockedReason::NodeIncarnationChanged),
        )
        &&& seen_status(observations, self.second_reincarnated).node_uid == original
        &&& seen_status(observations, self.second_released).node_uid == original
        &&& seen_status(observations, self.second_released).released_node_uid == replacement
    }

    /// Whether a status that was observed before the request was changed could not be
    /// written after that.
    pub open spec fn refuse_stale_writes(self, observations: Seq<Observation>) -> bool {
        &&& lifecycle::script()[self.first_completed] == Command::Patch(
            Subject::First,
            Change::DesiredState(MaintenanceDesiredState::Complete),
        )
        &&& observations[self.first_completed] is Done
        &&& lifecycle::script()[self.stale_write] == Command::WriteStaleStatus(Subject::First)
        &&& observations[self.stale_write] is Refused
    }
}

/// A scenario that comes to its end has seen all that it is about. The node stays
/// excluded from primary placement after the first of two requests is released, as long
/// as the second is not, and is free after that; a deleted request excludes it until the
/// node is ready. The requests keep the UID of the original node, and the release of
/// the second records that of the replacement. A stale status is not written.
pub proof fn finished_scenarios_have_seen_it_all(
    scenarios: Seq<Scenario>,
    observations: Seq<Observation>,
) -> (steps: Milestones)
    requires
        is_scenario(scenarios, observations),
    ensures
        steps.in_order(),
        steps.free_after_deletion < observations.len(),
        steps.hold_the_node(observations),
        exists|original: Option<Seq<char>>, replacement: Option<Seq<char>>| #[trigger]
            steps.record_both_nodes(observations, original, replacement),
        steps.refuse_stale_writes(observations),
{
    let script = lifecycle::script();
    finished_scenarios_went_as_expected(scenarios, observations);
    let steps = Milestones {
        original_created: 0,
        first_prepared: 4,
        second_prepared: 5,
        first_completed: 11,
        stale_write: 12,
        first_released: 13,
        excluded_after_first: 15,
        second_waiting: 19,
        excluded_while_waiting: 20,
        replacement_created: 23,
        second_reincarnated: 25,
        second_released: 28,
        free_after_second: 30,
        deletion_waiting: 35,
        excluded_while_deleting: 36,
        deleted: 38,
        free_after_deletion: 39,
    };
    let original = text::opt_text(observations[0]->Created_uid);
    let replacement = text::opt_text(observations[23]->Created_uid);
    assert(scenarios[0].memory().expects(script[0], observations[0]));
    assert(scenarios[4].memory().expects(script[4], observations[4]));
    assert(scenarios[5].memory().expects(script[5], observations[5]));
    assert(scenarios[11].memory().expects(script[11], observations[11]));
    assert(scenarios[12].memory().expects(script[12], observations[12]));
    assert(scenarios[13].memory().expects(script[13], observations[13]));
    assert(scenarios[15].memory().expects(script[15], observations[15]));
    assert(scenarios[19].memory().expects(script[19], observations[19]));
    assert(scenarios[20].memory().expects(script[20], observations[20]));
    assert(scenarios[23].memory().expects(script[23], observations[23]));
    assert(scenarios[25].memory().expects(script[25], observations[25]));
    assert(scenarios[28].memory().expects(script[28], observations[28]));
    assert(scenarios[30].memory().expects(script[30], observations[30]));
    assert(scenarios[35].memory().expects(script[35], observations[35]));
    assert(scenarios[36].memory().expects(script[36], observations[36]));
    assert(scenarios[38].memory().expects(script[38], observations[38]));
    assert(scenarios[39].memory().expects(script[39], observations[39]));
    assert(forall|j: int|
        0 < j < 28 ==> #[trigger] script[j] != Command::CreateNode(Incarnation::Original));
    assert(forall|j: int|
        23 < j < 28 ==> #[trigger] script[j] != Command::CreateNode(Incarnation::Replacement));
    lemma_scenario_memory(scenarios, observations, Incarnation::Original, 0, 4);
    lemma_scenario_memory(scenarios, observations, Incarnation::Original, 0, 5);
    lemma_scenario_memory(scenarios, observations, Incarnation::Original, 0, 23);
    lemma_scenario_memory(scenarios, observations, Incarnation::Original, 0, 25);
    lemma_scenario_memory(scenarios, observations, Incarnation::Original, 0, 28);
    lemma_scenario_memory(scenarios, observations, Incarnation::Replacement, 23, 28);
    assert(steps.record_both_nodes(observations, original, replacement));
    steps
}

/// The value of a hexadecimal digit.
pub open spec fn hex_value(digit: char) -> int {
    if digit as int <= '9' as int {
        digit as int - '0' as int
    } else {
        digit as int - 'a' as int + 10
    }
}

/// The number that a sequence of hexadecimal digits stands for.
pub open spec fn value_of_hex(digits: Seq<char>) -> int
    decreases digits.len(),
{
    if digits.len() == 0 {
        0
    } else {
        value_of_hex(digits.drop_last()) * 16 + hex_value(digits.last())
    }
}

/// Sixteen to the power of `count`.
spec fn hex_range(count: nat) -> int
    decreases count,
{
    if count == 0 {
        1
    } else {
        hex_range((count - 1) as nat) * 16
    }
}

proof fn lemma_hex_digits(n: int, count: nat)
    requires
        0 <= n < hex_range(count),
    ensures
        lifecycle::hex_digits(n, count).len() == count,
        value_of_hex(lifecycle::hex_digits(n, count)) == n,
        forall|i: int|
            0 <= i < count ==> {
                let digit = #[trigger] lifecycle::hex_digits(n, count)[i];
                '0' as int <= digit as int <= '9' as int || 'a' as int <= digit as int <= 'f' as int
            },
    decreases count,
{
    let digits = lifecycle::hex_digits(n, count);
    if count > 0 {
        lemma_hex_digits(n / 16, (count - 1) as nat);
        assert(digits.drop_last() =~= lifecycle::hex_digits(n / 16, (count - 1) as nat));
    }
}

/// The name for a suffix ends in the suffix as eight lower-case hexadecimal digits, so
/// different suffixes have different names.
pub proof fn fixture_names_end_in_their_suffix(suffix: u32, other: u32)
    ensures
        ({
            let name = lifecycle::fixture_text(suffix);
            let ending = name.skip("maintenance-test-"@.len() as int);
            &&& name == "maintenance-test-"@ + ending
            &&& ending.len() == 8
            &&& value_of_hex(ending) == suffix
            &&& forall|i: int|
                0 <= i < 8 ==> '0' as int <= #[trigger] ending[i] as int <= '9' as int || 'a' as int
                    <= ending[i] as int <= 'f' as int
        }),
        lifecycle::fixture_text(suffix) == lifecycle::fixture_text(other) ==> suffix == other,
{
    reveal_with_fuel(hex_range, 9);
    lemma_hex_digits(suffix as int, 8);
    lemma_hex_digits(other as int, 8);
    let start = "maintenance-test-"@;
    assert(lifecycle::fixture_text(suffix).skip(start.len() as int) =~= lifecycle::hex_digits(
        suffix as int,
        8,
    ));
    assert(lifecycle::fixture_text(other).skip(start.len() as int) =~= lifecycle::hex_digits(
        other as int,
        8,
    ));
    let ending = lifecycle::fixture_text(suffix).skip(start.len() as int);
    assert forall|i: int| 0 <= i < 8 implies '0' as int <= #[trigger] ending[i] as int <= '9' as int
        || 'a' as int <= ending[i] as int <= 'f' as int by {
        assert(ending[i] == lifecycle::hex_digits(suffix as int, 8)[i]);
    }
}

/// The requests of a scenario are told apart by the ending of their names.
pub proof fn requests_have_names_of_their_own(fixture: Seq<char>)
    ensures
        Subject::First.name_in(fixture) == fixture + "-first"@,
        Subject::Second.name_in(fixture) == fixture + "-second"@,
        Subject::Deletion.name_in(fixture) == fixture + "-delete"@,
{
}

/// Waiting is over once what is waited for has come, even if time is too; without that it
/// is given up when time is over, and goes on until then. A request has come to a phase once
/// its status has that phase and reason for its current generation.
pub proof fn waiting_ends_when_it_has_come_or_time_is_over(
    seen: SeenRequest,
    phase: MaintenancePhase,
    reason: Option<MaintenanceBlockedReason>,
    found: bool,
    expired: bool,
)
    ensures
        ({
            let come = seen.status is Some && seen.status->Some_0.phase == phase
                && seen.status->Some_0.blocked_reason == reason
                && seen.status->Some_0.observed_generation == seen.generation;
            let decision = lifecycle::phase_poll(seen, phase, reason, expired);
            &&& come <==> decision is Ready
            &&& !come && expired <==> decision is GiveUp
            &&& !come && !expired <==> decision is Wait
        }),
        ({
            let held = seen.finalizers is Some && exists|i: int|
                0 <= i < seen.finalizers->Some_0@.len() && (
                #[trigger] seen.finalizers->Some_0@[i])@ == "kuberic.io/node-maintenance"@;
            let decision = lifecycle::finalizer_poll(seen, expired);
            &&& !held <==> decision is Ready
            &&& held && expired <==> decision is GiveUp
            &&& held && !expired <==> decision is Wait
        }),
        ({
            let decision = lifecycle::deletion_poll(found, expired);
            &&& !found <==> decision is Ready
            &&& found && expired <==> decision is GiveUp
            &&& found && !expired <==> decision is Wait
        }),
{
    lemma_held(seen);
}

proof fn lemma_held(seen: SeenRequest)
    ensures
        seen.is_held() <==> seen.finalizers is Some && exists|i: int|
            0 <= i < seen.finalizers->Some_0@.len() && (#[trigger] seen.finalizers->Some_0@[i])@
                == "kuberic.io/node-maintenance"@,
{
    if seen.finalizers is Some {
        let finalizers = seen.finalizers->Some_0@;
        let texts = text::texts(finalizers);
        if seen.is_held() {
            let i = choose|i: int|
                0 <= i < texts.len() && texts[i] == "kuberic.io/node-maintenance"@;
            assert(finalizers[i]@ == "kuberic.io/node-maintenance"@);
        }
        if exists|i: int|
            0 <= i < finalizers.len() && (#[trigger] finalizers[i])@
                == "kuberic.io/node-maintenance"@ {
            let i = choose|i: int|
                0 <= i < finalizers.len() && (#[trigger] finalizers[i])@
                    == "kuberic.io/node-maintenance"@;
            assert(texts[i] == "kuberic.io/node-maintenance"@);
        }
    }
}

/// The UID of each node and each request that is created is remembered under its own name,
/// and nothing else is forgotten or remembered.
pub proof fn created_objects_are_remembered(
    memory: Memory,
    command: Command,
    observation: Observation,
    incarnation: Incarnation,
    subject: Subject,
)
    ensures
        ({
            let after = memory.after(command, observation);
            let uid = text::opt_text(observation->Created_uid);
            &&& command == Command::CreateNode(incarnation) ==> after.node(incarnation) == uid
            &&& command != Command::CreateNode(incarnation) ==> after.node(incarnation)
                == memory.node(incarnation)
            &&& command == Command::CreateRequest(subject) ==> after.request(subject) == uid
            &&& command != Command::CreateRequest(subject) ==> after.request(subject)
                == memory.request(subject)
            &&& Memory::empty().node(incarnation) is None
            &&& Memory::empty().request(subject) is None
        }),
{
}

/// Whether an event is about the object with this UID and has this reason.
pub open spec fn is_about(event: SeenEvent, uid: Option<Seq<char>>, reason: Seq<char>) -> bool {
    &&& event.regarding is Some
    &&& text::opt_text(event.regarding->Some_0) == uid
    &&& event.reason is Some && event.reason->Some_0@ == reason
}

proof fn lemma_events(
    events: Seq<SeenEvent>,
    uid: Option<Seq<char>>,
    reason: Seq<char>,
    warning: bool,
)
    requires
        lifecycle::has_event(events, uid, reason, warning),
    ensures
        exists|i: int|
            0 <= i < events.len() && is_about(#[trigger] events[i], uid, reason) && (warning
                ==> text::opt_text(events[i].type_) == Some("Warning"@)),
{
    let i = choose|i: int|
        0 <= i < events.len() && lifecycle::is_event(#[trigger] events[i], uid, reason, warning);
    assert(is_about(events[i], uid, reason));
}

proof fn lemma_scenario_requests(
    scenarios: Seq<Scenario>,
    observations: Seq<Observation>,
    subject: Subject,
    created: int,
    i: int,
)
    requires
        is_scenario(scenarios, observations),
        0 <= created < i <= observations.len(),
        lifecycle::script()[created] == Command::CreateRequest(subject),
        forall|j: int|
            created < j < i ==> #[trigger] lifecycle::script()[j] != Command::CreateRequest(subject),
    ensures
        scenarios[i].memory().request(subject) == text::opt_text(
            observations[created]->Created_uid,
        ),
    decreases i,
{
    lemma_scenario_position(scenarios, observations, i - 1);
    assert(scenarios[i - 1].goes_on(observations[i - 1], scenarios[i]));
    if i - 1 > created {
        lemma_scenario_requests(scenarios, observations, subject, created, i - 1);
        assert(lifecycle::script()[i - 1] != Command::CreateRequest(subject));
    }
}

/// More steps of a scenario.
pub struct Refusals {
    pub first_created: int,
    pub second_created: int,
    pub node_name: int,
    pub node_recovery: int,
    pub provider_event_id: int,
    pub first_released: int,
    pub back_to_prepare: int,
    pub events_listed: int,
}

impl Refusals {
    /// Whether the step was a change of the first request that the cluster refused as
    /// invalid.
    pub open spec fn was_refused(
        observations: Seq<Observation>,
        at: int,
        change: Change,
    ) -> bool {
        &&& lifecycle::script()[at] == Command::PatchRefused(Subject::First, change)
        &&& observations[at] == (Observation::Refused { code: Some(422u16) })
    }
}

/// A scenario that comes to its end has seen that a request cannot be changed in what it is
/// about, nor be taken back once it is released, and has found the events that report the
/// completion of the first request and, as a warning, the changed incarnation to the second.
pub proof fn finished_scenarios_have_seen_what_is_refused(
    scenarios: Seq<Scenario>,
    observations: Seq<Observation>,
) -> (steps: Refusals)
    requires
        is_scenario(scenarios, observations),
    ensures
        0 <= steps.first_created < steps.second_created < steps.node_name < steps.node_recovery,
        steps.node_recovery < steps.provider_event_id < steps.first_released,
        steps.first_released < steps.back_to_prepare < steps.events_listed < observations.len(),
        lifecycle::script()[steps.first_created] == Command::CreateRequest(Subject::First),
        lifecycle::script()[steps.second_created] == Command::CreateRequest(Subject::Second),
        Refusals::was_refused(observations, steps.node_name, Change::NodeName),
        Refusals::was_refused(observations, steps.node_recovery, Change::NodeRecovery),
        Refusals::was_refused(observations, steps.provider_event_id, Change::ProviderEventId),
        Refusals::was_refused(
            observations,
            steps.back_to_prepare,
            Change::DesiredState(MaintenanceDesiredState::Prepare),
        ),
        saw_phase(
            observations,
            steps.first_released,
            Subject::First,
            MaintenancePhase::Released,
            None,
        ),
        seen_status(observations, steps.first_released).observed_desired_state == Some(
            MaintenanceDesiredState::Complete,
        ),
        observations[steps.events_listed] matches Observation::Events(events) && {
            let first = text::opt_text(observations[steps.first_created]->Created_uid);
            let second = text::opt_text(observations[steps.second_created]->Created_uid);
            &&& exists|i: int|
                0 <= i < events@.len() && is_about(#[trigger] events@[i], first, "Completed"@)
            &&& exists|i: int|
                0 <= i < events@.len() && is_about(
                    #[trigger] events@[i],
                    second,
                    "NodeIncarnationChanged"@,
                ) && text::opt_text(events@[i].type_) == Some("Warning"@)
        },
{
    let script = lifecycle::script();
    finished_scenarios_went_as_expected(scenarios, observations);
    assert(scenarios[7].memory().expects(script[7], observations[7]));
    assert(scenarios[8].memory().expects(script[8], observations[8]));
    assert(scenarios[9].memory().expects(script[9], observations[9]));
    assert(scenarios[13].memory().expects(script[13], observations[13]));
    assert(scenarios[16].memory().expects(script[16], observations[16]));
    assert(scenarios[40].memory().expects(script[40], observations[40]));
    assert(forall|j: int|
        2 < j < 40 ==> #[trigger] script[j] != Command::CreateRequest(Subject::First));
    assert(forall|j: int|
        3 < j < 40 ==> #[trigger] script[j] != Command::CreateRequest(Subject::Second));
    lemma_scenario_requests(scenarios, observations, Subject::First, 2, 40);
    lemma_scenario_requests(scenarios, observations, Subject::Second, 3, 40);
    let events = observations[40]->Events_0@;
    lemma_events(events, scenarios[40].memory().request(Subject::First), "Completed"@, false);
    lemma_events(
        events,
        scenarios[40].memory().request(Subject::Second),
        "NodeIncarnationChanged"@,
        true,
    );
    Refusals {
        first_created: 2,
        second_created: 3,
        node_name: 7,
        node_recovery: 8,
        provider_event_id: 9,
        first_released: 13,
        back_to_prepare: 16,
        events_listed: 40,
    }
}

/// What a command may come to. A change or a deletion, and waiting for one, is done; what is
/// created has a UID, and the replacement of the node another one than the original; a change
/// that must not be is refused as invalid, and a stale write in any way; and the node is
/// excluded or not as it should be. Nothing comes after the last command.
pub proof fn commands_are_held_to_their_outcome(
    memory: Memory,
    command: Command,
    observation: Observation,
)
    ensures
        command is SetReady || command is DeleteNode || command is AwaitFinalizerRemoved
            || command is AwaitDeleted || command is Patch || command is DeleteRequest ==> (
        memory.expects(command, observation) <==> observation is Done),
        command is CreateRequest || command == Command::CreateNode(Incarnation::Original) ==> (
        memory.expects(command, observation) <==> observation is Created),
        command == Command::CreateNode(Incarnation::Replacement) ==> (memory.expects(
            command,
            observation,
        ) <==> (observation matches Observation::Created { uid } && text::opt_text(uid)
            != memory.node(Incarnation::Original))),
        command is PatchRefused ==> (memory.expects(command, observation) <==> observation == (
        Observation::Refused { code: Some(422u16) })),
        command is WriteStaleStatus ==> (memory.expects(command, observation)
            <==> observation is Refused),
        command matches Command::LookUpExclusion(expected) ==> (memory.expects(command, observation)
            <==> observation == (Observation::Exclusion { excluded: expected })),
        command is Finish ==> !memory.expects(command, observation),
        command is AwaitPhase && !(observation is Seen) ==> !memory.expects(command, observation),
        command is ListEvents && !(observation is Events) ==> !memory.expects(command, observation),
{
}

/// The events are those that are wanted if and only if one reports the completion of the
/// first request, and one warns of the changed incarnation to the second.
pub proof fn both_events_are_wanted(memory: Memory, events: Vec<SeenEvent>)
    ensures
        memory.expects(Command::ListEvents, Observation::Events(events)) <==> {
            &&& exists|i: int|
                0 <= i < events@.len() && is_about(
                    #[trigger] events@[i],
                    memory.request(Subject::First),
                    "Completed"@,
                )
            &&& exists|i: int|
                0 <= i < events@.len() && is_about(
                    #[trigger] events@[i],
                    memory.request(Subject::Second),
                    "NodeIncarnationChanged"@,
                ) && text::opt_text(events@[i].type_) == Some("Warning"@)
        },
{
    let first = memory.request(Subject::First);
    let second = memory.request(Subject::Second);
    if memory.expects(Command::ListEvents, Observation::Events(events)) {
        lemma_events(events@, first, "Completed"@, false);
        lemma_events(events@, second, "NodeIncarnationChanged"@, true);
    }
    if exists|i: int|
        0 <= i < events@.len() && is_about(#[trigger] events@[i], first, "Completed"@) {
        let i = choose|i: int|
            0 <= i < events@.len() && is_about(#[trigger] events@[i], first, "Completed"@);
        assert(lifecycle::is_event(events@[i], first, "Completed"@, false));
    }
    if exists|i: int|
        0 <= i < events@.len() && is_about(#[trigger] events@[i], second, "NodeIncarnationChanged"@)
            && text::opt_text(events@[i].type_) == Some("Warning"@) {
        let i = choose|i: int|
            0 <= i < events@.len() && is_about(
                #[trigger] events@[i],
                second,
                "NodeIncarnationChanged"@,
            ) && text::opt_text(events@[i].type_) == Some("Warning"@);
        assert(lifecycle::is_event(events@[i], second, "NodeIncarnationChanged"@, true));
    }
}

/// A request is as expected if and only if it has come to its phase and reason for its
/// current generation and looks as it should. Prepared, the first two report that they are
/// ready for the original node and are held by the finalizer. While it waits for the node,
/// the second no longer reports readiness, and the deleted one counts as cancelled; with
/// another node in its place the second keeps the original one. Released, the first counts as
/// completed, and the second has both nodes on record.
pub proof fn requests_are_held_to_their_phase(
    memory: Memory,
    subject: Subject,
    phase: MaintenancePhase,
    reason: Option<MaintenanceBlockedReason>,
    seen: SeenRequest,
)
    ensures
        memory.expects(Command::AwaitPhase(subject, phase, reason), Observation::Seen(seen)) <==> {
            let status = seen.status->Some_0;
            let not_ready = phase is Releasing && reason == Some(
                MaintenanceBlockedReason::NodeNotReady,
            );
            let released = phase is Released && reason is None;
            let original = memory.node(Incarnation::Original);
            &&& seen.status is Some
            &&& status.phase == phase && status.blocked_reason == reason
            &&& status.observed_generation == seen.generation
            &&& phase is Prepared && reason is None && !(subject is Deletion) ==> {
                &&& text::opt_text(status.node_uid) == original
                &&& status.conditions@.len() > 0 && status.conditions@[0].status@ == "True"@
                &&& seen.finalizers is Some && exists|i: int|
                    0 <= i < seen.finalizers->Some_0@.len() && (
                    #[trigger] seen.finalizers->Some_0@[i])@ == "kuberic.io/node-maintenance"@
            }
            &&& subject is Second && not_ready ==> status.conditions@.len() > 0
                && status.conditions@[0].status@ == "False"@
            &&& subject is Second && phase is Releasing && reason == Some(
                MaintenanceBlockedReason::NodeIncarnationChanged,
            ) ==> text::opt_text(status.node_uid) == original
            &&& subject is Deletion && not_ready ==> seen.deleting && status.observed_desired_state
                == Some(MaintenanceDesiredState::Cancel)
            &&& subject is First && released ==> status.observed_desired_state == Some(
                MaintenanceDesiredState::Complete,
            )
            &&& subject is Second && released ==> text::opt_text(status.node_uid) == original
                && text::opt_text(status.released_node_uid) == memory.node(Incarnation::Replacement)
        },
{
    lemma_held(seen);
}

/// A deletion is of the object with the given UID and of no other.
pub proof fn deletions_are_fenced_by_the_uid(
    preconditions: lifecycle::DeletePreconditions,
    uid: Option<String>,
)
    requires
        preconditions.fences(uid),
    ensures
        text::opt_text(preconditions.uid) == text::opt_text(uid),
{
}

/// Whether a command creates or removes the node, or sets whether it is ready.
pub open spec fn sets_node(command: Command) -> bool {
    command is SetReady || command is DeleteNode || command is CreateNode
}

/// Whether step `at` was the last to touch the node before step `until`.
pub open spec fn was_last_to_set_node(at: int, until: int) -> bool {
    &&& 0 <= at < until <= lifecycle::script().len()
    &&& sets_node(lifecycle::script()[at])
    &&& forall|i: int| at < i < until ==> !sets_node(#[trigger] lifecycle::script()[i])
}

/// What the requests are asked to be, and how the node stands, when a scenario looks for
/// their phases. The node is ready when requests are to be prepared and released, and not
/// when they are to wait for it; the second request waits after it was cancelled, and is
/// released after the replacement was confirmed, not the original; and what was created is
/// deleted in the end.
pub proof fn scenarios_bring_about_what_they_look_for()
    ensures
        ({
            let script = lifecycle::script();
            &&& was_last_to_set_node(1, 4)
            &&& script[1] == Command::SetReady(Incarnation::Original, true)
            &&& was_last_to_set_node(10, 13)
            &&& script[10] == Command::SetReady(Incarnation::Original, true)
            &&& script[13] == Command::AwaitPhase(Subject::First, MaintenancePhase::Released, None)
            &&& script[14] == Command::AwaitFinalizerRemoved(Subject::First)
            &&& was_last_to_set_node(17, 20)
            &&& script[17] == Command::SetReady(Incarnation::Original, false)
            &&& script[18] == Command::Patch(
                Subject::Second,
                Change::DesiredState(MaintenanceDesiredState::Cancel),
            )
            &&& script[21] == Command::Patch(
                Subject::Second,
                Change::ReleaseNodeUid(Incarnation::Original),
            )
            &&& script[22] == Command::DeleteNode(Incarnation::Original)
            &&& was_last_to_set_node(24, 26)
            &&& script[24] == Command::SetReady(Incarnation::Replacement, true)
            &&& was_last_to_set_node(26, 33)
            &&& script[26] == Command::SetReady(Incarnation::Replacement, true)
            &&& script[27] == Command::Patch(
                Subject::Second,
                Change::ReleaseNodeUid(Incarnation::Replacement),
            )
            &&& script[28] == Command::AwaitPhase(
                Subject::Second,
                MaintenancePhase::Released,
                None,
            )
            &&& script[29] == Command::AwaitFinalizerRemoved(Subject::Second)
            &&& script[31] == Command::CreateRequest(Subject::Deletion)
            &&& script[32] == Command::AwaitPhase(
                Subject::Deletion,
                MaintenancePhase::Prepared,
                None,
            )
            &&& was_last_to_set_node(33, 37)
            &&& script[33] == Command::SetReady(Incarnation::Replacement, false)
            &&& script[34] == Command::DeleteRequest(Subject::Deletion)
            &&& was_last_to_set_node(37, 43)
            &&& script[37] == Command::SetReady(Incarnation::Replacement, true)
            &&& script[6] == Command::LookUpExclusion(true)
            &&& script[41] == Command::DeleteRequest(Subject::First)
            &&& script[42] == Command::DeleteRequest(Subject::Second)
            &&& script[43] == Command::DeleteNode(Incarnation::Replacement)
        }),
{
    let script = lifecycle::script();
    assert(forall|i: int| 1 < i < 4 ==> !sets_node(#[trigger] script[i]));
    assert(forall|i: int| 10 < i < 13 ==> !sets_node(#[trigger] script[i]));
    assert(forall|i: int| 17 < i < 20 ==> !sets_node(#[trigger] script[i]));
    assert(forall|i: int| 24 < i < 26 ==> !sets_node(#[trigger] script[i]));
    assert(forall|i: int| 26 < i < 33 ==> !sets_node(#[trigger] script[i]));
    assert(forall|i: int| 33 < i < 37 ==> !sets_node(#[trigger] script[i]));
    assert(forall|i: int| 37 < i < 43 ==> !sets_node(#[trigger] script[i]));
}

} // verus!
