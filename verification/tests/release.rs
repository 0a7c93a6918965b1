use kuberic::maintenance::api::{
    MaintenanceBlockedReason, MaintenanceDesiredState, MaintenancePhase,
    NodeMaintenanceRequestSpec, NodeMaintenanceRequestStatus, NodeRecovery, NodeRef,
    ReplicaRecovery, PREPARED_CONDITION_TYPE,
};
use kuberic::maintenance::clock::Timestamp;
use kuberic::maintenance::release::reconcile_release;
use kuberic::maintenance::status::finish;

fn at(text: &str) -> Timestamp {
    let instant: k8s_openapi::jiff::Timestamp = text.parse().unwrap();
    Timestamp::new(instant.as_second(), instant.subsec_nanosecond()).unwrap()
}

fn now() -> Timestamp {
    at("2026-09-18T10:00:00Z")
}

fn spec(
    node_recovery: NodeRecovery,
    desired: MaintenanceDesiredState,
) -> NodeMaintenanceRequestSpec {
    NodeMaintenanceRequestSpec {
        node_recovery,
        desired_state: desired,
        ..NodeMaintenanceRequestSpec::new("worker-04".to_string())
    }
}

fn releasing() -> NodeMaintenanceRequestStatus {
    NodeMaintenanceRequestStatus {
        phase: MaintenancePhase::Releasing,
        node_uid: Some("original-uid".to_string()),
        ..Default::default()
    }
}

fn node(uid: &str, ready: bool) -> NodeRef {
    NodeRef {
        name: "worker-04".to_string(),
        uid: uid.to_string(),
        ready,
    }
}

#[test]
fn complete_and_cancel_release_a_ready_node_without_reusing_prepared_evidence() {
    for desired in [
        MaintenanceDesiredState::Complete,
        MaintenanceDesiredState::Cancel,
    ] {
        let outcome = reconcile_release(
            &spec(NodeRecovery::Return, desired),
            releasing(),
            Some(&node("original-uid", true)),
            &now(),
        );
        assert_eq!(outcome.phase, MaintenancePhase::Released);
        assert!(!outcome.phase.excludes_primary_placement());
        assert_eq!(outcome.released_node_uid.as_deref(), Some("original-uid"));
        assert!(outcome.released_at.is_some());
        assert!(outcome.prepared_at.is_none());
        assert_eq!(outcome.conditions[0].status, "False");
    }
}

#[test]
fn an_unready_node_remains_excluded() {
    let outcome = reconcile_release(
        &spec(NodeRecovery::Return, MaintenanceDesiredState::Complete),
        releasing(),
        Some(&node("original-uid", false)),
        &now(),
    );
    assert_eq!(outcome.phase, MaintenancePhase::Releasing);
    assert_eq!(
        outcome.blocked_reason,
        Some(MaintenanceBlockedReason::NodeNotReady)
    );
    assert!(outcome.phase.excludes_primary_placement());
    assert!(outcome.released_at.is_none());
}

#[test]
fn changed_incarnations_need_explicit_confirmation_for_every_recovery_policy() {
    for node_recovery in [NodeRecovery::Return, NodeRecovery::MayDisappear] {
        for replica_recovery in [ReplicaRecovery::Preserve, ReplicaRecovery::Rebuild] {
            let spec = NodeMaintenanceRequestSpec {
                replica_recovery,
                ..spec(node_recovery, MaintenanceDesiredState::Complete)
            };
            let outcome = reconcile_release(
                &spec,
                releasing(),
                Some(&node("replacement-uid", true)),
                &now(),
            );
            assert_eq!(outcome.phase, MaintenancePhase::Releasing);
            assert_eq!(
                outcome.blocked_reason,
                Some(MaintenanceBlockedReason::NodeIncarnationChanged)
            );
            assert_eq!(outcome.node_uid.as_deref(), Some("original-uid"));
            assert!(outcome.released_at.is_none());
        }
    }
}

#[test]
fn confirmed_replacement_retains_the_original_identity_for_audit() {
    let mut spec = spec(
        NodeRecovery::MayDisappear,
        MaintenanceDesiredState::Complete,
    );
    spec.release_node_uid = Some("replacement-uid".to_string());
    let outcome = reconcile_release(
        &spec,
        releasing(),
        Some(&node("replacement-uid", true)),
        &now(),
    );
    assert_eq!(outcome.phase, MaintenancePhase::Released);
    assert_eq!(outcome.node_uid.as_deref(), Some("original-uid"));
    assert_eq!(
        outcome.released_node_uid.as_deref(),
        Some("replacement-uid")
    );
    let changed_again =
        reconcile_release(&spec, releasing(), Some(&node("another-uid", true)), &now());
    assert_eq!(changed_again.phase, MaintenancePhase::Releasing);
}

#[test]
fn missing_nodes_only_release_cancellation_or_retirement_without_a_requested_replacement() {
    for node_recovery in [NodeRecovery::Return, NodeRecovery::MayDisappear] {
        for replica_recovery in [ReplicaRecovery::Preserve, ReplicaRecovery::Rebuild] {
            for desired in [
                MaintenanceDesiredState::Complete,
                MaintenanceDesiredState::Cancel,
            ] {
                let mut spec = NodeMaintenanceRequestSpec {
                    replica_recovery,
                    ..spec(node_recovery, desired)
                };
                let outcome = reconcile_release(&spec, releasing(), None, &now());
                assert_eq!(
                    outcome.phase == MaintenancePhase::Released,
                    desired == MaintenanceDesiredState::Cancel
                        || node_recovery == NodeRecovery::MayDisappear
                );
                spec.release_node_uid = Some("replacement-uid".to_string());
                let waiting = reconcile_release(&spec, releasing(), None, &now());
                assert_eq!(
                    waiting.blocked_reason,
                    Some(MaintenanceBlockedReason::NodeNotFound)
                );
                assert!(waiting.phase.excludes_primary_placement());
            }
        }
    }
}

#[test]
fn waiting_is_idempotent_across_clock_ticks() {
    let spec = spec(NodeRecovery::Return, MaintenanceDesiredState::Complete);
    let first = reconcile_release(
        &spec,
        releasing(),
        Some(&node("original-uid", false)),
        &now(),
    );
    let next = reconcile_release(
        &spec,
        first.clone(),
        Some(&node("original-uid", false)),
        &at("2026-09-18T10:01:00Z"),
    );
    assert_eq!(first, next);
    assert!(first.same_as(&next));
}

#[test]
fn timestamps_are_recorded_in_their_printed_form() {
    assert_eq!(now().text(), "2026-09-18T10:00:00Z");
    assert_eq!(
        Timestamp::new(123_456_789, 0).unwrap().text(),
        "1973-11-29T21:33:09Z"
    );
    assert!(Timestamp::new(i64::MAX, 0).is_none());
    assert!(Timestamp::new(0, 1_000_000_000).is_none());
    let outcome = reconcile_release(
        &spec(NodeRecovery::Return, MaintenanceDesiredState::Complete),
        releasing(),
        Some(&node("original-uid", true)),
        &now(),
    );
    assert_eq!(outcome.released_at.as_deref(), Some("2026-09-18T10:00:00Z"));
    assert_eq!(
        outcome.conditions[0].last_transition_time,
        "2026-09-18T10:00:00Z"
    );
}

#[test]
fn release_messages_name_the_node_and_the_decision() {
    let complete = spec(NodeRecovery::Return, MaintenanceDesiredState::Complete);
    let message = |status: NodeMaintenanceRequestStatus| status.message.unwrap();
    assert_eq!(
        message(reconcile_release(&complete, releasing(), None, &now())),
        "waiting for Node worker-04 to return before release"
    );
    assert_eq!(
        message(reconcile_release(
            &complete,
            releasing(),
            Some(&node("replacement-uid", true)),
            &now()
        )),
        "Node worker-04 now has UID replacement-uid; confirm this incarnation with \
         spec.releaseNodeUid after recovery"
    );
    assert_eq!(
        message(reconcile_release(
            &complete,
            releasing(),
            Some(&node("original-uid", false)),
            &now()
        )),
        "waiting for Node worker-04 to be Ready before release"
    );
    assert_eq!(
        message(reconcile_release(
            &complete,
            releasing(),
            Some(&node("original-uid", true)),
            &now()
        )),
        "Complete acknowledged for Node UID original-uid; this request no longer excludes \
         primary placement"
    );
    assert_eq!(
        message(reconcile_release(
            &spec(NodeRecovery::Return, MaintenanceDesiredState::Cancel),
            releasing(),
            None,
            &now()
        )),
        "Cancel acknowledged; the target Node no longer exists"
    );
}

#[test]
fn a_request_without_recorded_node_is_released_by_any_ready_node() {
    let unprepared = NodeMaintenanceRequestStatus {
        node_uid: None,
        ..releasing()
    };
    let outcome = reconcile_release(
        &spec(NodeRecovery::Return, MaintenanceDesiredState::Cancel),
        unprepared,
        Some(&node("some-uid", true)),
        &now(),
    );
    assert_eq!(outcome.phase, MaintenancePhase::Released);
    assert_eq!(outcome.released_node_uid.as_deref(), Some("some-uid"));
    assert_eq!(outcome.node_uid, None);
}

#[test]
fn only_a_prepared_status_reports_readiness() {
    let prepared = finish(
        NodeMaintenanceRequestStatus::default(),
        MaintenancePhase::Prepared,
        None,
        None,
        &now(),
    );
    assert_eq!(prepared.conditions.len(), 1);
    assert_eq!(prepared.conditions[0].type_, PREPARED_CONDITION_TYPE);
    assert_eq!(prepared.conditions[0].status, "True");
    assert_eq!(
        prepared.conditions[0].reason,
        "PrimariesMovedAndQuorumVerified"
    );
    assert_eq!(prepared.prepared_at.as_deref(), Some("2026-09-18T10:00:00Z"));

    let later = at("2026-09-18T11:00:00Z");
    let still = finish(
        prepared.clone(),
        MaintenancePhase::Prepared,
        None,
        None,
        &later,
    );
    assert!(still.same_as(&prepared));

    let blocked = finish(
        prepared,
        MaintenancePhase::Blocked,
        Some(MaintenanceBlockedReason::BlockedByQuorum),
        Some("too few replicas".to_string()),
        &later,
    );
    assert_eq!(blocked.conditions.len(), 1);
    assert_eq!(blocked.conditions[0].status, "False");
    assert_eq!(blocked.conditions[0].reason, "BlockedByQuorum");
    assert_eq!(blocked.conditions[0].message, "too few replicas");
    assert_eq!(
        blocked.conditions[0].last_transition_time,
        "2026-09-18T11:00:00Z"
    );
    assert_eq!(blocked.prepared_at, None);
}

#[test]
fn a_released_request_no_longer_excludes_placement() {
    for phase in [
        MaintenancePhase::Preparing,
        MaintenancePhase::Prepared,
        MaintenancePhase::Blocked,
        MaintenancePhase::Failed,
        MaintenancePhase::Expired,
        MaintenancePhase::Releasing,
    ] {
        assert!(phase.excludes_primary_placement());
    }
    assert!(!MaintenancePhase::Requested.excludes_primary_placement());
    assert!(!MaintenancePhase::Released.excludes_primary_placement());
}
