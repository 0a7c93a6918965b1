use kuberic::maintenance::api::{
    Condition, MaintenanceBlockedReason, MaintenanceDesiredState, MaintenancePhase,
    NodeMaintenanceRequestStatus, MAINTENANCE_FINALIZER, PREPARED_CONDITION_TYPE,
};
use kuberic::maintenance::lifecycle::{
    fenced_delete, fixture_name, random_fixture_name, wait_deleted, wait_finalizer_removed,
    wait_request, Change, Command, Incarnation, Observation, Poll, Scenario, SeenEvent,
    SeenRequest, Subject,
};

fn uid(text: &str) -> Option<String> {
    Some(text.to_string())
}

fn seen(
    phase: MaintenancePhase,
    reason: Option<MaintenanceBlockedReason>,
    desired: MaintenanceDesiredState,
    released: Option<String>,
) -> SeenRequest {
    SeenRequest {
        status: Some(NodeMaintenanceRequestStatus {
            phase,
            blocked_reason: reason,
            observed_generation: Some(3),
            observed_desired_state: Some(desired),
            node_uid: uid("node-a"),
            released_node_uid: released,
            conditions: vec![Condition {
                type_: PREPARED_CONDITION_TYPE.to_string(),
                status: if phase == MaintenancePhase::Prepared {
                    "True".to_string()
                } else {
                    "False".to_string()
                },
                reason: String::new(),
                message: String::new(),
                observed_generation: Some(3),
                last_transition_time: String::new(),
            }],
            ..Default::default()
        }),
        generation: Some(3),
        finalizers: Some(vec![MAINTENANCE_FINALIZER.to_string()]),
        deleting: false,
    }
}

fn events() -> Vec<SeenEvent> {
    vec![
        SeenEvent {
            regarding: Some(uid("request-1")),
            reason: uid("Completed"),
            type_: uid("Normal"),
        },
        SeenEvent {
            regarding: Some(uid("request-2")),
            reason: uid("NodeIncarnationChanged"),
            type_: uid("Warning"),
        },
    ]
}

/// What a cluster that works answers to a command.
fn answer(command: Command) -> Observation {
    match command {
        Command::CreateNode(Incarnation::Original) => Observation::Created { uid: uid("node-a") },
        Command::CreateNode(Incarnation::Replacement) => Observation::Created { uid: uid("node-b") },
        Command::CreateRequest(Subject::First) => Observation::Created {
            uid: uid("request-1"),
        },
        Command::CreateRequest(Subject::Second) => Observation::Created {
            uid: uid("request-2"),
        },
        Command::CreateRequest(Subject::Deletion) => Observation::Created {
            uid: uid("request-3"),
        },
        Command::AwaitPhase(subject, phase, reason) => {
            let desired = match (subject, phase) {
                (_, MaintenancePhase::Prepared) => MaintenanceDesiredState::Prepare,
                (Subject::First, _) => MaintenanceDesiredState::Complete,
                _ => MaintenanceDesiredState::Cancel,
            };
            let released = if phase == MaintenancePhase::Released {
                uid("node-b")
            } else {
                None
            };
            Observation::Seen(SeenRequest {
                deleting: subject == Subject::Deletion && phase == MaintenancePhase::Releasing,
                ..seen(phase, reason, desired, released)
            })
        }
        Command::PatchRefused(_, _) => Observation::Refused { code: Some(422) },
        Command::WriteStaleStatus(_) => Observation::Refused { code: Some(409) },
        Command::LookUpExclusion(expected) => Observation::Exclusion { excluded: expected },
        Command::ListEvents => Observation::Events(events()),
        _ => Observation::Done,
    }
}

/// Runs the scenario up to the first command that `stop` picks.
fn up_to(stop: impl Fn(Command) -> bool) -> Scenario {
    let mut scenario = Scenario::new();
    while !stop(scenario.command()) {
        let command = scenario.command();
        assert_eq!(scenario.advance(answer(command)), Ok(()));
    }
    scenario
}

#[test]
fn a_working_cluster_passes_the_scenario() {
    let mut seen = Vec::new();
    let mut scenario = Scenario::new();
    while scenario.command() != Command::Finish {
        let command = scenario.command();
        seen.push(command);
        assert_eq!(scenario.advance(answer(command)), Ok(()));
    }
    assert_eq!(seen.len(), 44);
    assert_eq!(scenario.node_uid(Incarnation::Original), uid("node-a"));
    assert_eq!(scenario.node_uid(Incarnation::Replacement), uid("node-b"));
    assert_eq!(scenario.request_uid(Subject::First), uid("request-1"));
    assert_eq!(scenario.request_uid(Subject::Second), uid("request-2"));
    assert_eq!(scenario.request_uid(Subject::Deletion), uid("request-3"));
    assert_eq!(scenario.advance(Observation::Done), Err(Command::Finish));
    let stale = seen
        .iter()
        .position(|command| matches!(command, Command::WriteStaleStatus(_)))
        .unwrap();
    assert_eq!(
        seen[stale - 1],
        Command::Patch(
            Subject::First,
            Change::DesiredState(MaintenanceDesiredState::Complete)
        )
    );
}

#[test]
fn the_scenario_fails_at_the_first_surprise() {
    let mut scenario = up_to(|command| matches!(command, Command::PatchRefused(_, _)));
    assert_eq!(
        scenario.advance(Observation::Done),
        Err(Command::PatchRefused(Subject::First, Change::NodeName))
    );
    assert_eq!(
        scenario.advance(Observation::Refused { code: Some(500) }),
        Err(Command::PatchRefused(Subject::First, Change::NodeName))
    );

    let mut scenario = up_to(|command| matches!(command, Command::WriteStaleStatus(_)));
    assert!(scenario.advance(Observation::Done).is_err());

    let mut scenario =
        up_to(|command| command == Command::CreateNode(Incarnation::Replacement));
    assert!(scenario
        .advance(Observation::Created { uid: uid("node-a") })
        .is_err());

    let mut scenario = up_to(|command| matches!(command, Command::LookUpExclusion(_)));
    assert!(scenario
        .advance(Observation::Exclusion { excluded: false })
        .is_err());

    let mut scenario = up_to(|command| matches!(command, Command::AwaitPhase(_, _, _)));
    assert!(scenario.advance(Observation::GaveUp).is_err());
    let mut unheld = seen(
        MaintenancePhase::Prepared,
        None,
        MaintenanceDesiredState::Prepare,
        None,
    );
    unheld.finalizers = None;
    assert!(scenario.advance(Observation::Seen(unheld)).is_err());
}

#[test]
fn the_scenario_wants_both_events() {
    let listing = |events: Vec<SeenEvent>| {
        up_to(|command| command == Command::ListEvents).advance(Observation::Events(events))
    };
    assert_eq!(listing(events()), Ok(()));
    assert_eq!(listing(Vec::new()), Err(Command::ListEvents));
    let mut mild = events();
    mild[1].type_ = uid("Normal");
    assert_eq!(listing(mild), Err(Command::ListEvents));
    let mut other = events();
    other[0].regarding = Some(uid("request-2"));
    assert_eq!(listing(other), Err(Command::ListEvents));

    let without_uid = |regarding: Option<Option<String>>| {
        let mut scenario = Scenario::new();
        while scenario.command() != Command::ListEvents {
            let observation = match scenario.command() {
                Command::CreateRequest(Subject::First) => Observation::Created { uid: None },
                command => answer(command),
            };
            assert_eq!(scenario.advance(observation), Ok(()));
        }
        let mut listed = events();
        listed[0].regarding = regarding;
        scenario.advance(Observation::Events(listed))
    };
    assert_eq!(without_uid(Some(None)), Ok(()));
    assert_eq!(without_uid(None), Err(Command::ListEvents));
}

#[test]
fn waiting_ends_in_time() {
    let prepared = seen(
        MaintenancePhase::Prepared,
        None,
        MaintenanceDesiredState::Prepare,
        None,
    );
    assert_eq!(
        wait_request(&prepared, MaintenancePhase::Prepared, None, true),
        Poll::Ready
    );
    assert_eq!(
        wait_request(&prepared, MaintenancePhase::Released, None, false),
        Poll::Wait
    );
    assert_eq!(
        wait_request(&prepared, MaintenancePhase::Released, None, true),
        Poll::GiveUp
    );
    assert_eq!(
        wait_request(
            &prepared,
            MaintenancePhase::Prepared,
            Some(MaintenanceBlockedReason::NodeNotReady),
            false
        ),
        Poll::Wait
    );
    let outdated = SeenRequest {
        generation: Some(4),
        ..prepared.clone()
    };
    assert_eq!(
        wait_request(&outdated, MaintenancePhase::Prepared, None, false),
        Poll::Wait
    );
    let blank = SeenRequest {
        status: None,
        ..prepared.clone()
    };
    assert_eq!(
        wait_request(&blank, MaintenancePhase::Prepared, None, false),
        Poll::Wait
    );
    assert_eq!(wait_finalizer_removed(&prepared, false), Poll::Wait);
    assert_eq!(
        wait_finalizer_removed(
            &SeenRequest {
                finalizers: Some(vec!["other".to_string()]),
                ..prepared
            },
            true
        ),
        Poll::Ready
    );
    assert_eq!(wait_deleted(true, false), Poll::Wait);
    assert_eq!(wait_deleted(true, true), Poll::GiveUp);
    assert_eq!(wait_deleted(false, true), Poll::Ready);
}

#[test]
fn fixtures_have_names_of_their_own() {
    assert_eq!(fixture_name(0), "maintenance-test-00000000");
    assert_eq!(fixture_name(0xdead_beef), "maintenance-test-deadbeef");
    assert_eq!(fixture_name(0x0123_4567), "maintenance-test-01234567");
    let name = random_fixture_name();
    assert_eq!(name.len(), "maintenance-test-".len() + 8);
    let suffix = name.strip_prefix("maintenance-test-").unwrap();
    assert!(u32::from_str_radix(suffix, 16).is_ok());
    assert!((0..16).any(|_| random_fixture_name() != name));
    assert_eq!(Subject::First.name("x"), "x-first");
    assert_eq!(Subject::Second.name("x"), "x-second");
    assert_eq!(Subject::Deletion.name("x"), "x-delete");
    assert_eq!(fenced_delete(uid("node-a")).uid, uid("node-a"));
    assert_eq!(fenced_delete(None).uid, None);
}
