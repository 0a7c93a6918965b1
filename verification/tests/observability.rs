use kuberic::maintenance::api::{
    MaintenanceBlockedReason, MaintenanceDesiredState, MaintenancePhase,
    NodeMaintenanceRequestSpec, NodeMaintenanceRequestStatus,
};
use kuberic::maintenance::controller::ReconcileOutcome;
use kuberic::maintenance::observability::{transition_event, EventType};

fn spec() -> NodeMaintenanceRequestSpec {
    NodeMaintenanceRequestSpec::new("worker-04".to_string())
}

fn outcome(phase: MaintenancePhase) -> ReconcileOutcome {
    ReconcileOutcome {
        status: NodeMaintenanceRequestStatus {
            phase,
            ..Default::default()
        },
        persisted: true,
    }
}

#[test]
fn only_persisted_meaningful_transitions_emit_events() {
    let previous = NodeMaintenanceRequestStatus::default();
    let mut prepared = outcome(MaintenancePhase::Prepared);
    prepared.persisted = false;
    assert!(transition_event(&spec(), &previous, &prepared).is_none());
    prepared.persisted = true;
    let event = transition_event(&spec(), &previous, &prepared).unwrap();
    assert_eq!(event.type_, EventType::Normal);
    assert_eq!(event.reason, "Prepared");
    assert!(transition_event(&spec(), &prepared.status, &prepared).is_none());
}

#[test]
fn blocked_reason_changes_are_reported_as_warnings() {
    let mut blocked = outcome(MaintenancePhase::Blocked);
    blocked.status.blocked_reason = Some(MaintenanceBlockedReason::BlockedByQuorum);
    let event =
        transition_event(&spec(), &NodeMaintenanceRequestStatus::default(), &blocked).unwrap();
    assert_eq!(event.type_, EventType::Warning);
    assert_eq!(event.reason, "BlockedByQuorum");
    let previous = blocked.status.clone();
    blocked.status.blocked_reason = Some(MaintenanceBlockedReason::NoEligibleTarget);
    let event = transition_event(&spec(), &previous, &blocked).unwrap();
    assert_eq!(event.type_, EventType::Warning);
    assert_eq!(event.reason, "NoEligibleTarget");
}

#[test]
fn release_events_report_the_outcome_and_recovered_node() {
    for (desired, reason) in [
        (MaintenanceDesiredState::Complete, "Completed"),
        (MaintenanceDesiredState::Cancel, "Cancelled"),
    ] {
        let mut released = outcome(MaintenancePhase::Released);
        released.status.observed_desired_state = Some(desired);
        released.status.released_node_uid = Some("replacement-uid".to_string());
        let event = transition_event(
            &spec(),
            &outcome(MaintenancePhase::Releasing).status,
            &released,
        )
        .unwrap();
        assert_eq!(event.type_, EventType::Normal);
        assert_eq!(event.reason, reason);
        assert_eq!(event.action, "Release");
        assert_eq!(
            event.secondary.unwrap().uid.as_deref(),
            Some("replacement-uid")
        );
    }
}

#[test]
fn event_notes_respect_the_api_byte_limit() {
    let mut blocked = outcome(MaintenancePhase::Blocked);
    blocked.status.message = Some("\u{e9}".repeat(800));
    let event =
        transition_event(&spec(), &NodeMaintenanceRequestStatus::default(), &blocked).unwrap();
    assert_eq!(event.note.unwrap().len(), 1024);
}

#[test]
fn event_notes_end_at_a_character() {
    let mut blocked = outcome(MaintenancePhase::Blocked);
    let message = format!("x{}", "\u{e9}".repeat(800));
    blocked.status.message = Some(message.clone());
    let event =
        transition_event(&spec(), &NodeMaintenanceRequestStatus::default(), &blocked).unwrap();
    let note = event.note.unwrap();
    assert_eq!(note.len(), 1023);
    assert!(message.starts_with(&note));

    blocked.status.message = Some("short".to_string());
    let event =
        transition_event(&spec(), &NodeMaintenanceRequestStatus::default(), &blocked).unwrap();
    assert_eq!(event.note.as_deref(), Some("short"));

    blocked.status.message = None;
    let event =
        transition_event(&spec(), &NodeMaintenanceRequestStatus::default(), &blocked).unwrap();
    assert_eq!(event.note, None);
}

#[test]
fn events_refer_to_the_prepared_node_until_one_is_released() {
    let mut prepared = outcome(MaintenancePhase::Prepared);
    prepared.status.node_uid = Some("original-uid".to_string());
    let event =
        transition_event(&spec(), &NodeMaintenanceRequestStatus::default(), &prepared).unwrap();
    assert_eq!(event.action, "Prepare");
    let node = event.secondary.unwrap();
    assert_eq!(node.api_version.as_deref(), Some("v1"));
    assert_eq!(node.kind.as_deref(), Some("Node"));
    assert_eq!(node.name.as_deref(), Some("worker-04"));
    assert_eq!(node.uid.as_deref(), Some("original-uid"));
}

#[test]
fn waiting_for_release_is_reported_as_a_warning() {
    let mut releasing = outcome(MaintenancePhase::Releasing);
    releasing.status.blocked_reason = Some(MaintenanceBlockedReason::NodeNotReady);
    let event = transition_event(
        &spec(),
        &outcome(MaintenancePhase::Prepared).status,
        &releasing,
    )
    .unwrap();
    assert_eq!(event.type_, EventType::Warning);
    assert_eq!(event.reason, "NodeNotReady");
    assert_eq!(event.action, "Release");
    for phase in [MaintenancePhase::Failed, MaintenancePhase::Expired] {
        let event = transition_event(
            &spec(),
            &NodeMaintenanceRequestStatus::default(),
            &outcome(phase),
        )
        .unwrap();
        assert_eq!(event.type_, EventType::Warning);
    }
}
