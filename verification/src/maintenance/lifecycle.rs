//! A scenario that takes maintenance requests through their whole lifecycle on a
//! running cluster: overlapping requests for one node, completion, cancellation,
//! replacement of the node, and deletion.
//!
//! The scenario says which command is next; what came of the command is handed to
//! [`Scenario::advance`], which holds it to what is expected.

use vstd::prelude::*;

use crate::maintenance::api::{
    self, MaintenanceBlockedReason, MaintenanceDesiredState, MaintenancePhase,
    NodeMaintenanceRequestStatus, MAINTENANCE_FINALIZER,
};
use crate::text;

verus! {

/// Longest time in seconds to wait for a request to come to a phase.
pub const CONVERGENCE_SECONDS: u64 = 150;

/// Longest time in seconds to wait for a finalizer to be removed.
pub const FINALIZER_SECONDS: u64 = 60;

/// Longest time in seconds to wait for a request to be deleted.
pub const DELETION_SECONDS: u64 = 90;

/// Longest time in seconds that the scenario takes.
pub const SCENARIO_SECONDS: u64 = 600;

/// Time in milliseconds between two looks at the cluster.
pub const POLL_MILLISECONDS: u64 = 250;

/// Status code with which the cluster refuses an invalid change.
pub const UNPROCESSABLE: u16 = 422;

/// A hexadecimal digit.
pub open spec fn hex_digit(d: int) -> char {
    if d == 0 {
        '0'
    } else if d == 1 {
        '1'
    } else if d == 2 {
        '2'
    } else if d == 3 {
        '3'
    } else if d == 4 {
        '4'
    } else if d == 5 {
        '5'
    } else if d == 6 {
        '6'
    } else if d == 7 {
        '7'
    } else if d == 8 {
        '8'
    } else if d == 9 {
        '9'
    } else if d == 10 {
        'a'
    } else if d == 11 {
        'b'
    } else if d == 12 {
        'c'
    } else if d == 13 {
        'd'
    } else if d == 14 {
        'e'
    } else {
        'f'
    }
}

/// The lowest `count` hexadecimal digits of `n`, most significant first.
pub open spec fn hex_digits(n: int, count: nat) -> Seq<char>
    decreases count,
{
    if count == 0 {
        Seq::empty()
    } else {
        hex_digits(n / 16, (count - 1) as nat).push(hex_digit(n % 16))
    }
}

fn hex_digit_text(d: u32) -> (s: &'static str)
    requires
        d < 16,
    ensures
        s@ == seq![hex_digit(d as int)],
{
    proof {
        reveal_strlit("0");
        reveal_strlit("1");
        reveal_strlit("2");
        reveal_strlit("3");
        reveal_strlit("4");
        reveal_strlit("5");
        reveal_strlit("6");
        reveal_strlit("7");
        reveal_strlit("8");
        reveal_strlit("9");
        reveal_strlit("a");
        reveal_strlit("b");
        reveal_strlit("c");
        reveal_strlit("d");
        reveal_strlit("e");
        reveal_strlit("f");
    }
    match d {
        0 => "0",
        1 => "1",
        2 => "2",
        3 => "3",
        4 => "4",
        5 => "5",
        6 => "6",
        7 => "7",
        8 => "8",
        9 => "9",
        10 => "a",
        11 => "b",
        12 => "c",
        13 => "d",
        14 => "e",
        _ => "f",
    }
}

fn append_hex(out: &mut String, n: u32, count: u32)
    ensures
        final(out)@ == old(out)@ + hex_digits(n as int, count as nat),
    decreases count,
{
    if count > 0 {
        append_hex(out, n / 16, count - 1);
        out.append(hex_digit_text(n % 16));
    }
}

/// The name for a given suffix.
pub open spec fn fixture_text(suffix: u32) -> Seq<char> {
    "maintenance-test-"@ + hex_digits(suffix as int, 8)
}

/// The name of the scenario's node and requests for a given suffix: eight
/// hexadecimal digits.
pub fn fixture_name(suffix: u32) -> (name: String)
    ensures
        name@ == fixture_text(suffix),
{
    let mut name = "maintenance-test-".to_owned();
    append_hex(&mut name, suffix, 8);
    name
}

/// Calls `rand::random`. Any number can come back.
#[verifier::external_body]
fn random_suffix() -> (suffix: u32) {
    rand::random::<u32>()
}

/// A name that another run of the scenario is unlikely to use.
pub fn random_fixture_name() -> (name: String)
    ensures
        exists|suffix: u32| name@ == #[trigger] fixture_text(suffix),
{
    let suffix: u32 = random_suffix();
    fixture_name(suffix)
}

/// Which of the scenario's requests.
#[derive(Clone, Copy, Debug, PartialEq, Eq, Structural)]
pub enum Subject {
    First,
    Second,
    Deletion,
}

impl Subject {
    pub open spec fn spec_ending(self) -> Seq<char> {
        match self {
            Subject::First => "-first"@,
            Subject::Second => "-second"@,
            Subject::Deletion => "-delete"@,
        }
    }

    /// The text of the name in the scenario `fixture`.
    pub open spec fn name_in(self, fixture: Seq<char>) -> Seq<char> {
        fixture + self.spec_ending()
    }

    /// The name of the request in the scenario `fixture`.
    pub fn name(&self, fixture: &str) -> (name: String)
        ensures
            name@ == self.name_in(fixture@),
    {
        let ending = match self {
            Subject::First => "-first",
            Subject::Second => "-second",
            Subject::Deletion => "-delete",
        };
        let mut name = fixture.to_owned();
        name.append(ending);
        name
    }
}

/// Which incarnation of the scenario's node.
#[derive(Clone, Copy, Debug, PartialEq, Eq, Structural)]
pub enum Incarnation {
    Original,
    Replacement,
}

/// A change of a request.
#[derive(Clone, Copy, Debug, PartialEq, Eq, Structural)]
pub enum Change {
    NodeName,
    NodeRecovery,
    ProviderEventId,
    DesiredState(MaintenanceDesiredState),
    /// Confirm an incarnation of the node.
    ReleaseNodeUid(Incarnation),
}

/// What is to be done next.
#[derive(Clone, Copy, Debug, PartialEq, Eq, Structural)]
pub enum Command {
    CreateNode(Incarnation),
    SetReady(Incarnation, bool),
    DeleteNode(Incarnation),
    CreateRequest(Subject),
    /// Wait until the request has come to a phase, with or without a reason.
    AwaitPhase(Subject, MaintenancePhase, Option<MaintenanceBlockedReason>),
    AwaitFinalizerRemoved(Subject),
    AwaitDeleted(Subject),
    /// Make a change that is accepted.
    Patch(Subject, Change),
    /// Try a change that is refused.
    PatchRefused(Subject, Change),
    /// Try to write the status of the request as it was observed before its last
    /// change.
    WriteStaleStatus(Subject),
    /// See whether the node is excluded from primary placement, as it should be or
    /// should not.
    LookUpExclusion(bool),
    ListEvents,
    /// Delete the request if it is still the one that was created.
    DeleteRequest(Subject),
    Finish,
}

/// The commands of the scenario, in order.
pub open spec fn script() -> Seq<Command> {
    seq![
        Command::CreateNode(Incarnation::Original),
        Command::SetReady(Incarnation::Original, true),
        Command::CreateRequest(Subject::First),
        Command::CreateRequest(Subject::Second),
        Command::AwaitPhase(Subject::First, MaintenancePhase::Prepared, None),
        Command::AwaitPhase(Subject::Second, MaintenancePhase::Prepared, None),
        Command::LookUpExclusion(true),
        Command::PatchRefused(Subject::First, Change::NodeName),
        Command::PatchRefused(Subject::First, Change::NodeRecovery),
        Command::PatchRefused(Subject::First, Change::ProviderEventId),
        Command::SetReady(Incarnation::Original, true),
        Command::Patch(Subject::First, Change::DesiredState(MaintenanceDesiredState::Complete)),
        Command::WriteStaleStatus(Subject::First),
        Command::AwaitPhase(Subject::First, MaintenancePhase::Released, None),
        Command::AwaitFinalizerRemoved(Subject::First),
        Command::LookUpExclusion(true),
        Command::PatchRefused(
            Subject::First,
            Change::DesiredState(MaintenanceDesiredState::Prepare),
        ),
        Command::SetReady(Incarnation::Original, false),
        Command::Patch(Subject::Second, Change::DesiredState(MaintenanceDesiredState::Cancel)),
        Command::AwaitPhase(
            Subject::Second,
            MaintenancePhase::Releasing,
            Some(MaintenanceBlockedReason::NodeNotReady),
        ),
        Command::LookUpExclusion(true),
        Command::Patch(Subject::Second, Change::ReleaseNodeUid(Incarnation::Original)),
        Command::DeleteNode(Incarnation::Original),
        Command::CreateNode(Incarnation::Replacement),
        Command::SetReady(Incarnation::Replacement, true),
        Command::AwaitPhase(
            Subject::Second,
            MaintenancePhase::Releasing,
            Some(MaintenanceBlockedReason::NodeIncarnationChanged),
        ),
        Command::SetReady(Incarnation::Replacement, true),
        Command::Patch(Subject::Second, Change::ReleaseNodeUid(Incarnation::Replacement)),
        Command::AwaitPhase(Subject::Second, MaintenancePhase::Released, None),
        Command::AwaitFinalizerRemoved(Subject::Second),
        Command::LookUpExclusion(false),
        Command::CreateRequest(Subject::Deletion),
        Command::AwaitPhase(Subject::Deletion, MaintenancePhase::Prepared, None),
        Command::SetReady(Incarnation::Replacement, false),
        Command::DeleteRequest(Subject::Deletion),
        Command::AwaitPhase(
            Subject::Deletion,
            MaintenancePhase::Releasing,
            Some(MaintenanceBlockedReason::NodeNotReady),
        ),
        Command::LookUpExclusion(true),
        Command::SetReady(Incarnation::Replacement, true),
        Command::AwaitDeleted(Subject::Deletion),
        Command::LookUpExclusion(false),
        Command::ListEvents,
        Command::DeleteRequest(Subject::First),
        Command::DeleteRequest(Subject::Second),
        Command::DeleteNode(Incarnation::Replacement),
        Command::Finish,
    ]
}

/// A request as it was seen.
#[derive(Clone, Debug)]
pub struct SeenRequest {
    pub status: Option<NodeMaintenanceRequestStatus>,
    pub generation: Option<i64>,
    pub finalizers: Option<Vec<String>>,
    pub deleting: bool,
}

impl SeenRequest {
    /// Whether the request has come to a phase, with or without a reason, for its
    /// current generation.
    pub open spec fn has_converged(
        self,
        phase: MaintenancePhase,
        reason: Option<MaintenanceBlockedReason>,
    ) -> bool {
        &&& self.status matches Some(status)
        &&& status.phase == phase
        &&& status.blocked_reason == reason
        &&& status.observed_generation == self.generation
    }

    /// Whether the finalizer holds the request.
    pub open spec fn is_held(self) -> bool {
        self.finalizers matches Some(finalizers) && text::texts(finalizers@).contains(
            MAINTENANCE_FINALIZER@,
        )
    }

    fn converged(
        &self,
        phase: MaintenancePhase,
        reason: Option<MaintenanceBlockedReason>,
    ) -> (converged: bool)
        ensures
            converged == self.has_converged(phase, reason),
    {
        match &self.status {
            Some(status) => status.phase == phase && api::same_reason(
                status.blocked_reason,
                reason,
            ) && match (status.observed_generation, self.generation) {
                (Some(a), Some(b)) => a == b,
                (None, None) => true,
                _ => false,
            },
            None => false,
        }
    }

    fn held(&self) -> (held: bool)
        ensures
            held == self.is_held(),
    {
        match &self.finalizers {
            Some(finalizers) => {
                let wanted = MAINTENANCE_FINALIZER.to_owned();
                text::holds_text(finalizers, &wanted)
            },
            None => false,
        }
    }
}

/// How waiting goes on.
#[derive(Clone, Copy, Debug, PartialEq, Eq, Structural)]
pub enum Poll {
    Ready,
    /// Look again in [`POLL_MILLISECONDS`].
    Wait,
    /// It has taken too long.
    GiveUp,
}

pub open spec fn poll(ready: bool, expired: bool) -> Poll {
    if ready {
        Poll::Ready
    } else if expired {
        Poll::GiveUp
    } else {
        Poll::Wait
    }
}

fn decide_poll(ready: bool, expired: bool) -> (decision: Poll)
    ensures
        decision == poll(ready, expired),
{
    if ready {
        Poll::Ready
    } else if expired {
        Poll::GiveUp
    } else {
        Poll::Wait
    }
}

/// How waiting for a request to come to a phase goes on.
pub open spec fn phase_poll(
    seen: SeenRequest,
    phase: MaintenancePhase,
    reason: Option<MaintenanceBlockedReason>,
    expired: bool,
) -> Poll {
    poll(seen.has_converged(phase, reason), expired)
}

/// How waiting for a request to lose its finalizer goes on.
pub open spec fn finalizer_poll(seen: SeenRequest, expired: bool) -> Poll {
    poll(!seen.is_held(), expired)
}

/// How waiting for a request to be gone goes on.
pub open spec fn deletion_poll(found: bool, expired: bool) -> Poll {
    poll(!found, expired)
}

/// Whether a request that is waited for has come to a phase.
pub fn wait_request(
    seen: &SeenRequest,
    phase: MaintenancePhase,
    reason: Option<MaintenanceBlockedReason>,
    expired: bool,
) -> (decision: Poll)
    ensures
        decision == phase_poll(*seen, phase, reason, expired),
{
    decide_poll(seen.converged(phase, reason), expired)
}

/// Whether a request that is waited for has lost its finalizer.
pub fn wait_finalizer_removed(seen: &SeenRequest, expired: bool) -> (decision: Poll)
    ensures
        decision == finalizer_poll(*seen, expired),
{
    decide_poll(!seen.held(), expired)
}

/// Whether a request that is waited for is gone.
pub fn wait_deleted(found: bool, expired: bool) -> (decision: Poll)
    ensures
        decision == deletion_poll(found, expired),
{
    decide_poll(!found, expired)
}

/// What a deletion is conditional on.
#[derive(Clone, Debug)]
pub struct DeletePreconditions {
    pub uid: Option<String>,
}

impl DeletePreconditions {
    /// Whether the deletion is only of the object with this UID.
    pub open spec fn fences(self, uid: Option<String>) -> bool {
        self.uid == uid
    }
}

/// Deletes an object only if it is still the one with this UID.
pub fn fenced_delete(uid: Option<String>) -> (preconditions: DeletePreconditions)
    ensures
        preconditions.fences(uid),
{
    DeletePreconditions { uid }
}

/// An event as it was listed.
#[derive(Clone, Debug)]
pub struct SeenEvent {
    /// The UID of what the event is about, if it is about anything that has one.
    pub regarding: Option<Option<String>>,
    pub reason: Option<String>,
    pub type_: Option<String>,
}

/// What came of a command.
pub enum Observation {
    /// The command succeeded and there is nothing to see.
    Done,
    /// An object was created with this UID.
    Created { uid: Option<String> },
    /// The request, once it had come to the awaited phase.
    Seen(SeenRequest),
    /// The command was refused, with a status code if the cluster answered at all.
    Refused { code: Option<u16> },
    Exclusion { excluded: bool },
    Events(Vec<SeenEvent>),
    /// Waiting took too long.
    GaveUp,
}

/// What the scenario remembers.
#[verifier::ext_equal]
pub struct Memory {
    pub original: Option<Seq<char>>,
    pub replacement: Option<Seq<char>>,
    pub first: Option<Seq<char>>,
    pub second: Option<Seq<char>>,
    pub deletion: Option<Seq<char>>,
}

/// Whether the first condition of the request has the given status.
pub open spec fn first_condition_is(status: NodeMaintenanceRequestStatus, value: Seq<char>) -> bool {
    status.conditions@.len() > 0 && status.conditions@[0].status@ == value
}

/// Whether there is an event with the given reason about the object with this UID.
pub open spec fn has_event(
    events: Seq<SeenEvent>,
    uid: Option<Seq<char>>,
    reason: Seq<char>,
    warning: bool,
) -> bool {
    exists|i: int|
        0 <= i < events.len() && is_event(#[trigger] events[i], uid, reason, warning)
}

/// Whether `event` has the given reason and is about the object with this UID. Where
/// `warning` is set it has to be a warning.
pub open spec fn is_event(
    event: SeenEvent,
    uid: Option<Seq<char>>,
    reason: Seq<char>,
    warning: bool,
) -> bool {
    &&& event.regarding is Some
    &&& text::opt_text(event.regarding->Some_0) == uid
    &&& text::opt_text(event.reason) == Some(reason)
    &&& warning ==> text::opt_text(event.type_) == Some("Warning"@)
}

impl Memory {
    /// The UID of an incarnation of the node.
    pub open spec fn node(self, incarnation: Incarnation) -> Option<Seq<char>> {
        match incarnation {
            Incarnation::Original => self.original,
            Incarnation::Replacement => self.replacement,
        }
    }

    /// The UID of a request.
    pub open spec fn request(self, subject: Subject) -> Option<Seq<char>> {
        match subject {
            Subject::First => self.first,
            Subject::Second => self.second,
            Subject::Deletion => self.deletion,
        }
    }

    pub open spec fn empty() -> Memory {
        Memory { original: None, replacement: None, first: None, second: None, deletion: None }
    }

    /// Whether a request that has come to `phase` is as expected.
    pub open spec fn expects_request(
        self,
        subject: Subject,
        phase: MaintenancePhase,
        reason: Option<MaintenanceBlockedReason>,
        seen: SeenRequest,
    ) -> bool {
        let status = seen.status->Some_0;
        &&& seen.has_converged(phase, reason)
        &&& match (subject, phase, reason) {
            (Subject::Deletion, MaintenancePhase::Prepared, None) => true,
            (_, MaintenancePhase::Prepared, None) => text::opt_text(status.node_uid)
                == self.original && seen.is_held() && first_condition_is(status, "True"@),
            (Subject::First, MaintenancePhase::Released, None) => status.observed_desired_state
                == Some(MaintenanceDesiredState::Complete),
            (Subject::Second, MaintenancePhase::Released, None) => text::opt_text(status.node_uid)
                == self.original && text::opt_text(status.released_node_uid) == self.replacement,
            (
                Subject::Second,
                MaintenancePhase::Releasing,
                Some(MaintenanceBlockedReason::NodeNotReady),
            ) => first_condition_is(status, "False"@),
            (
                Subject::Second,
                MaintenancePhase::Releasing,
                Some(MaintenanceBlockedReason::NodeIncarnationChanged),
            ) => text::opt_text(status.node_uid) == self.original,
            (
                Subject::Deletion,
                MaintenancePhase::Releasing,
                Some(MaintenanceBlockedReason::NodeNotReady),
            ) => seen.deleting && status.observed_desired_state == Some(
                MaintenanceDesiredState::Cancel,
            ),
            _ => true,
        }
    }

    /// Whether `observation` is what is expected of `command`.
    pub open spec fn expects(self, command: Command, observation: Observation) -> bool {
        match command {
            Command::CreateNode(incarnation) => observation matches Observation::Created { uid }
                && (incarnation is Replacement ==> text::opt_text(uid) != self.original),
            Command::CreateRequest(_) => observation is Created,
            Command::SetReady(_, _) => observation is Done,
            Command::DeleteNode(_) => observation is Done,
            Command::AwaitPhase(subject, phase, reason) => observation matches Observation::Seen(
                seen,
            ) && self.expects_request(subject, phase, reason, seen),
            Command::AwaitFinalizerRemoved(_) => observation is Done,
            Command::AwaitDeleted(_) => observation is Done,
            Command::Patch(_, _) => observation is Done,
            Command::PatchRefused(_, _) => observation matches Observation::Refused {
                code: Some(code),
            } && code == UNPROCESSABLE,
            Command::WriteStaleStatus(_) => observation is Refused,
            Command::LookUpExclusion(expected) => observation matches Observation::Exclusion {
                excluded,
            } && excluded == expected,
            Command::ListEvents => observation matches Observation::Events(events) && has_event(
                events@,
                self.first,
                "Completed"@,
                false,
            ) && has_event(events@, self.second, "NodeIncarnationChanged"@, true),
            Command::DeleteRequest(_) => observation is Done,
            Command::Finish => false,
        }
    }

    /// What is remembered after `command`.
    pub open spec fn after(self, command: Command, observation: Observation) -> Memory {
        let uid = text::opt_text(observation->Created_uid);
        match command {
            Command::CreateNode(Incarnation::Original) => Memory { original: uid, ..self },
            Command::CreateNode(Incarnation::Replacement) => Memory { replacement: uid, ..self },
            Command::CreateRequest(Subject::First) => Memory { first: uid, ..self },
            Command::CreateRequest(Subject::Second) => Memory { second: uid, ..self },
            Command::CreateRequest(Subject::Deletion) => Memory { deletion: uid, ..self },
            _ => self,
        }
    }
}

fn commands() -> (commands: Vec<Command>)
    ensures
        commands@ == script(),
{
    let commands: Vec<Command> = vec![
        Command::CreateNode(Incarnation::Original),
        Command::SetReady(Incarnation::Original, true),
        Command::CreateRequest(Subject::First),
        Command::CreateRequest(Subject::Second),
        Command::AwaitPhase(Subject::First, MaintenancePhase::Prepared, None),
        Command::AwaitPhase(Subject::Second, MaintenancePhase::Prepared, None),
        Command::LookUpExclusion(true),
        Command::PatchRefused(Subject::First, Change::NodeName),
        Command::PatchRefused(Subject::First, Change::NodeRecovery),
        Command::PatchRefused(Subject::First, Change::ProviderEventId),
        Command::SetReady(Incarnation::Original, true),
        Command::Patch(Subject::First, Change::DesiredState(MaintenanceDesiredState::Complete)),
        Command::WriteStaleStatus(Subject::First),
        Command::AwaitPhase(Subject::First, MaintenancePhase::Released, None),
        Command::AwaitFinalizerRemoved(Subject::First),
        Command::LookUpExclusion(true),
        Command::PatchRefused(
            Subject::First,
            Change::DesiredState(MaintenanceDesiredState::Prepare),
        ),
        Command::SetReady(Incarnation::Original, false),
        Command::Patch(Subject::Second, Change::DesiredState(MaintenanceDesiredState::Cancel)),
        Command::AwaitPhase(
            Subject::Second,
            MaintenancePhase::Releasing,
            Some(MaintenanceBlockedReason::NodeNotReady),
        ),
        Command::LookUpExclusion(true),
        Command::Patch(Subject::Second, Change::ReleaseNodeUid(Incarnation::Original)),
        Command::DeleteNode(Incarnation::Original),
        Command::CreateNode(Incarnation::Replacement),
        Command::SetReady(Incarnation::Replacement, true),
        Command::AwaitPhase(
            Subject::Second,
            MaintenancePhase::Releasing,
            Some(MaintenanceBlockedReason::NodeIncarnationChanged),
        ),
        Command::SetReady(Incarnation::Replacement, true),
        Command::Patch(Subject::Second, Change::ReleaseNodeUid(Incarnation::Replacement)),
        Command::AwaitPhase(Subject::Second, MaintenancePhase::Released, None),
        Command::AwaitFinalizerRemoved(Subject::Second),
        Command::LookUpExclusion(false),
        Command::CreateRequest(Subject::Deletion),
        Command::AwaitPhase(Subject::Deletion, MaintenancePhase::Prepared, None),
        Command::SetReady(Incarnation::Replacement, false),
        Command::DeleteRequest(Subject::Deletion),
        Command::AwaitPhase(
            Subject::Deletion,
            MaintenancePhase::Releasing,
            Some(MaintenanceBlockedReason::NodeNotReady),
        ),
        Command::LookUpExclusion(true),
        Command::SetReady(Incarnation::Replacement, true),
        Command::AwaitDeleted(Subject::Deletion),
        Command::LookUpExclusion(false),
        Command::ListEvents,
        Command::DeleteRequest(Subject::First),
        Command::DeleteRequest(Subject::Second),
        Command::DeleteNode(Incarnation::Replacement),
        Command::Finish,
    ];
    assert(commands@ =~= script());
    commands
}

fn find_event(
    events: &Vec<SeenEvent>,
    uid: &Option<String>,
    reason: &str,
    warning: bool,
) -> (found: bool)
    ensures
        found == has_event(events@, text::opt_text(*uid), reason@, warning),
{
    let wanted: Option<String> = Some(reason.to_owned());
    let warning_type: Option<String> = Some("Warning".to_owned());
    let mut i: usize = 0;
    while i < events.len()
        invariant
            i <= events@.len(),
            text::opt_text(wanted) == Some(reason@),
            text::opt_text(warning_type) == Some("Warning"@),
            forall|j: int|
                0 <= j < i ==> !is_event(
                    #[trigger] events@[j],
                    text::opt_text(*uid),
                    reason@,
                    warning,
                ),
        decreases events@.len() - i,
    {
        let event = &events[i];
        let concerns = match &event.regarding {
            Some(regarding) => text::same_opt_text(regarding, uid),
            None => false,
        };
        if concerns && text::same_opt_text(
            &event.reason,
            &wanted,
        ) && (!warning || text::same_opt_text(&event.type_, &warning_type)) {
            assert(is_event(events@[i as int], text::opt_text(*uid), reason@, warning));
            return true;
        }
        i += 1;
    }
    false
}

fn condition_is(status: &NodeMaintenanceRequestStatus, value: &str) -> (has_it: bool)
    ensures
        has_it == first_condition_is(*status, value@),
{
    let value = value.to_owned();
    status.conditions.len() > 0 && status.conditions[0].status == value
}

/// A run of the scenario.
pub struct Scenario {
    commands: Vec<Command>,
    position: usize,
    original: Option<String>,
    replacement: Option<String>,
    first: Option<String>,
    second: Option<String>,
    deletion: Option<String>,
}

impl Scenario {
    /// How many commands have been carried out.
    pub closed spec fn spec_position(self) -> nat {
        self.position as nat
    }

    pub closed spec fn memory(self) -> Memory {
        Memory {
            original: text::opt_text(self.original),
            replacement: text::opt_text(self.replacement),
            first: text::opt_text(self.first),
            second: text::opt_text(self.second),
            deletion: text::opt_text(self.deletion),
        }
    }

    pub closed spec fn well_formed(self) -> bool {
        self.commands@ == script() && self.position < self.commands@.len()
    }

    /// The command that is next.
    pub open spec fn spec_command(self) -> Command {
        script()[self.spec_position() as int]
    }

    /// Whether the scenario goes on to `next` with what came of the next command.
    pub open spec fn goes_on(self, observation: Observation, next: Scenario) -> bool {
        &&& self.memory().expects(self.spec_command(), observation)
        &&& next.spec_position() == self.spec_position() + 1
        &&& next.memory() == self.memory().after(self.spec_command(), observation)
    }

    pub fn new() -> (scenario: Scenario)
        ensures
            scenario.well_formed(),
            scenario.spec_position() == 0,
            scenario.memory() == Memory::empty(),
    {
        Scenario {
            commands: commands(),
            position: 0,
            original: None,
            replacement: None,
            first: None,
            second: None,
            deletion: None,
        }
    }

    /// The command that is next.
    pub fn command(&self) -> (command: Command)
        requires
            self.well_formed(),
        ensures
            command == self.spec_command(),
    {
        self.commands[self.position]
    }

    /// The UID of an incarnation of the node.
    pub fn node_uid(&self, incarnation: Incarnation) -> (uid: Option<String>)
        ensures
            text::opt_text(uid) == self.memory().node(incarnation),
    {
        match incarnation {
            Incarnation::Original => text::copy_opt_text(&self.original),
            Incarnation::Replacement => text::copy_opt_text(&self.replacement),
        }
    }

    /// The UID of a request.
    pub fn request_uid(&self, subject: Subject) -> (uid: Option<String>)
        ensures
            text::opt_text(uid) == self.memory().request(subject),
    {
        match subject {
            Subject::First => text::copy_opt_text(&self.first),
            Subject::Second => text::copy_opt_text(&self.second),
            Subject::Deletion => text::copy_opt_text(&self.deletion),
        }
    }

    fn accepts_request(
        &self,
        subject: Subject,
        phase: MaintenancePhase,
        reason: Option<MaintenanceBlockedReason>,
        seen: &SeenRequest,
    ) -> (accepts: bool)
        ensures
            accepts == self.memory().expects_request(subject, phase, reason, *seen),
    {
        if !seen.converged(phase, reason) {
            return false;
        }
        let status: &NodeMaintenanceRequestStatus = match &seen.status {
            Some(status) => status,
            None => {
                return false;
            },
        };
        match (subject, phase, reason) {
            (Subject::Deletion, MaintenancePhase::Prepared, None) => true,
            (_, MaintenancePhase::Prepared, None) => text::same_opt_text(
                &status.node_uid,
                &self.original,
            ) && seen.held() && condition_is(status, "True"),
            (Subject::First, MaintenancePhase::Released, None) => {
                match status.observed_desired_state {
                    Some(MaintenanceDesiredState::Complete) => true,
                    _ => false,
                }
            },
            (Subject::Second, MaintenancePhase::Released, None) => text::same_opt_text(
                &status.node_uid,
                &self.original,
            ) && text::same_opt_text(&status.released_node_uid, &self.replacement),
            (
                Subject::Second,
                MaintenancePhase::Releasing,
                Some(MaintenanceBlockedReason::NodeNotReady),
            ) => condition_is(status, "False"),
            (
                Subject::Second,
                MaintenancePhase::Releasing,
                Some(MaintenanceBlockedReason::NodeIncarnationChanged),
            ) => text::same_opt_text(&status.node_uid, &self.original),
            (
                Subject::Deletion,
                MaintenancePhase::Releasing,
                Some(MaintenanceBlockedReason::NodeNotReady),
            ) => seen.deleting && match status.observed_desired_state {
                Some(MaintenanceDesiredState::Cancel) => true,
                _ => false,
            },
            _ => true,
        }
    }

    fn accepts(&self, command: Command, observation: &Observation) -> (accepts: bool)
        ensures
            accepts == self.memory().expects(command, *observation),
    {
        match (command, observation) {
            (Command::CreateNode(Incarnation::Original), Observation::Created { .. }) => true,
            (Command::CreateNode(Incarnation::Replacement), Observation::Created { uid }) => {
                !text::same_opt_text(uid, &self.original)
            },
            (Command::CreateRequest(_), Observation::Created { .. }) => true,
            (Command::SetReady(_, _), Observation::Done) => true,
            (Command::DeleteNode(_), Observation::Done) => true,
            (Command::AwaitPhase(subject, phase, reason), Observation::Seen(seen)) => {
                self.accepts_request(subject, phase, reason, seen)
            },
            (Command::AwaitFinalizerRemoved(_), Observation::Done) => true,
            (Command::AwaitDeleted(_), Observation::Done) => true,
            (Command::Patch(_, _), Observation::Done) => true,
            (Command::PatchRefused(_, _), Observation::Refused { code }) => match code {
                Some(code) => *code == UNPROCESSABLE,
                None => false,
            },
            (Command::WriteStaleStatus(_), Observation::Refused { .. }) => true,
            (Command::LookUpExclusion(expected), Observation::Exclusion { excluded }) => *excluded
                == expected,
            (Command::ListEvents, Observation::Events(events)) => find_event(
                events,
                &self.first,
                "Completed",
                false,
            ) && find_event(events, &self.second, "NodeIncarnationChanged", true),
            (Command::DeleteRequest(_), Observation::Done) => true,
            _ => false,
        }
    }

    /// Holds what came of the next command to what is expected of it. The scenario
    /// goes on if it is, and otherwise has failed at this command.
    pub fn advance(&mut self, observation: Observation) -> (advanced: Result<(), Command>)
        requires
            old(self).well_formed(),
        ensures
            final(self).well_formed(),
            match advanced {
                Ok(()) => old(self).goes_on(observation, *final(self)),
                Err(command) => !old(self).memory().expects(old(self).spec_command(), observation)
                    && command == old(self).spec_command() && *final(self) == *old(self),
            },
    {
        let command = self.command();
        if !self.accepts(command, &observation) {
            return Err(command);
        }
        assert(script().last() == Command::Finish);
        match (command, observation) {
            (Command::CreateNode(Incarnation::Original), Observation::Created { uid }) => {
                self.original = uid;
            },
            (Command::CreateNode(Incarnation::Replacement), Observation::Created { uid }) => {
                self.replacement = uid;
            },
            (Command::CreateRequest(Subject::First), Observation::Created { uid }) => {
                self.first = uid;
            },
            (Command::CreateRequest(Subject::Second), Observation::Created { uid }) => {
                self.second = uid;
            },
            (Command::CreateRequest(Subject::Deletion), Observation::Created { uid }) => {
                self.deletion = uid;
            },
            _ => {},
        }
        self.position = self.position + 1;
        Ok(())
    }
}

} // verus!
