use kuberic::maintenance::api::{
    AffectedSet, MaintenanceBlockedReason, MaintenanceDesiredState, MaintenancePhase,
    NodeMaintenanceRequestSpec, NodeMaintenanceRequestStatus, NodeRecovery, NodeRef,
};
use kuberic::maintenance::clock::Timestamp;
use kuberic::maintenance::controller::{
    get_node, get_set_topology, maintenance_pods, next_affected_set, patch_request_status,
    pod_to_maintenance_pod, reconcile_request, MaintenancePod, NodeRead, PodRecord, Preflight,
    ReconcileEvent, ReconcileOutcome, ReconcileState, RequestContext, RequestRecord, SetTopology,
    SnapshotMember, StableSnapshot, ROLE_LABEL, SET_LABEL,
};
use kuberic::maintenance::status::finish;

/// A cluster with fixed answers, and how often it was asked for each.
#[derive(Default)]
struct Cluster {
    settled: Option<NodeMaintenanceRequestStatus>,
    node: Option<NodeRef>,
    pods: Vec<MaintenancePod>,
    topology: Option<SetTopology>,
    discovered: NodeMaintenanceRequestStatus,
    prepared: NodeMaintenanceRequestStatus,
    patches: Vec<NodeMaintenanceRequestStatus>,
    node_calls: usize,
    list_calls: usize,
    topology_calls: Vec<(String, String)>,
    judged_topologies: Option<usize>,
    fail_patch: bool,
    fail_get_node: bool,
    fail_topology: bool,
}

fn now() -> Timestamp {
    let instant: k8s_openapi::jiff::Timestamp = "2026-09-06T20:00:00Z".parse().unwrap();
    Timestamp::new(instant.as_second(), instant.subsec_nanosecond()).unwrap()
}

fn spec() -> NodeMaintenanceRequestSpec {
    NodeMaintenanceRequestSpec {
        provider: Some("Manual".to_string()),
        provider_event_id: Some("event-123".to_string()),
        ..NodeMaintenanceRequestSpec::new("worker-04".to_string())
    }
}

fn node() -> NodeRef {
    NodeRef {
        name: "worker-04".to_string(),
        uid: "node-uid-a".to_string(),
        ready: true,
    }
}

fn pod(name: &str, node_name: Option<&str>, primary: bool) -> MaintenancePod {
    MaintenancePod {
        namespace: "default".to_string(),
        name: name.to_string(),
        uid: format!("uid-{name}"),
        node_name: node_name.map(str::to_string),
        set_name: "kv".to_string(),
        is_primary: primary,
    }
}

fn affected(name: &str, hosts_primary: bool) -> AffectedSet {
    AffectedSet {
        namespace: "default".to_string(),
        name: name.to_string(),
        hosts_primary,
        primary_moved: !hosts_primary,
        quorum_without_node: false,
        pod_uids: vec!["uid-kv-0".to_string()],
    }
}

fn settled(
    phase: MaintenancePhase,
    reason: Option<MaintenanceBlockedReason>,
) -> NodeMaintenanceRequestStatus {
    finish(
        NodeMaintenanceRequestStatus {
            observed_generation: Some(1),
            node_uid: Some("node-uid-a".to_string()),
            ..Default::default()
        },
        phase,
        reason,
        None,
        &now(),
    )
}

fn with_sets(
    status: NodeMaintenanceRequestStatus,
    sets: Vec<AffectedSet>,
) -> NodeMaintenanceRequestStatus {
    NodeMaintenanceRequestStatus {
        affected_sets: sets,
        ..status
    }
}

fn run(
    cluster: &mut Cluster,
    previous: &NodeMaintenanceRequestStatus,
) -> Result<ReconcileOutcome, String> {
    run_spec(cluster, &spec(), previous)
}

fn run_spec(
    cluster: &mut Cluster,
    spec: &NodeMaintenanceRequestSpec,
    previous: &NodeMaintenanceRequestStatus,
) -> Result<ReconcileOutcome, String> {
    let now = now();
    let ctx = RequestContext {
        name: "req-1",
        uid: "request-uid",
        resource_version: "7",
        deleting: false,
        spec,
        generation: Some(1),
        previous,
        now: &now,
    };
    let mut state = ReconcileState::Preflight;
    loop {
        let event = match &state {
            ReconcileState::Preflight => ReconcileEvent::Preflighted(match &cluster.settled {
                Some(status) => Preflight::Settled(status.clone()),
                None => Preflight::Discover,
            }),
            ReconcileState::ReadNode => {
                cluster.node_calls += 1;
                ReconcileEvent::NodeRead(if cluster.fail_get_node {
                    Err("node read rejected".to_string())
                } else {
                    Ok(cluster.node.clone())
                })
            }
            ReconcileState::ListPods { node } => {
                assert_eq!(node.name, "worker-04");
                cluster.list_calls += 1;
                ReconcileEvent::PodsListed(Ok(cluster.pods.clone()))
            }
            ReconcileState::Discover { found, pods } => {
                if found.is_none() {
                    assert!(pods.is_empty());
                }
                ReconcileEvent::Discovered(cluster.discovered.clone())
            }
            ReconcileState::ReadTopology { .. } => {
                cluster
                    .topology_calls
                    .push(next_affected_set(&state).unwrap());
                ReconcileEvent::TopologyRead(if cluster.fail_topology {
                    Err("topology read rejected".to_string())
                } else {
                    Ok(cluster.topology.clone())
                })
            }
            ReconcileState::Prepare { topologies, .. } => {
                cluster.judged_topologies = Some(topologies.len());
                ReconcileEvent::Prepared(cluster.prepared.clone())
            }
            ReconcileState::WriteStatus { status } => {
                ReconcileEvent::StatusWritten(if cluster.fail_patch {
                    Err("status patch rejected".to_string())
                } else {
                    cluster.patches.push(status.clone());
                    Ok(())
                })
            }
            ReconcileState::Finished { outcome } => return outcome.clone(),
        };
        assert!(state.expects(&event));
        state = reconcile_request(&ctx, state, event);
    }
}

fn assert_no_discovery(cluster: &Cluster) {
    assert_eq!(cluster.node_calls, 0);
    assert_eq!(cluster.list_calls, 0);
}

#[test]
fn an_expired_request_does_not_depend_on_reading_the_node() {
    let mut cluster = Cluster {
        fail_get_node: true,
        pods: vec![pod("kv-0", Some("worker-04"), true)],
        settled: Some(settled(
            MaintenancePhase::Expired,
            Some(MaintenanceBlockedReason::DeadlineExceeded),
        )),
        ..Default::default()
    };
    let spec = NodeMaintenanceRequestSpec {
        deadline: Some("2026-09-06T19:00:00Z".to_string()),
        ..spec()
    };
    let outcome = run_spec(
        &mut cluster,
        &spec,
        &NodeMaintenanceRequestStatus::default(),
    )
    .unwrap();

    assert_eq!(outcome.status.phase, MaintenancePhase::Expired);
    assert_eq!(
        outcome.status.blocked_reason,
        Some(MaintenanceBlockedReason::DeadlineExceeded)
    );
    assert_no_discovery(&cluster);
}

#[test]
fn a_terminal_request_does_not_perform_discovery() {
    let previous = NodeMaintenanceRequestStatus {
        phase: MaintenancePhase::Released,
        observed_generation: Some(1),
        observed_desired_state: Some(MaintenanceDesiredState::Prepare),
        ..Default::default()
    };
    let mut cluster = Cluster {
        node: Some(node()),
        pods: vec![pod("kv-0", Some("worker-04"), true)],
        settled: Some(previous.clone()),
        ..Default::default()
    };
    let outcome = run(&mut cluster, &previous).unwrap();

    assert_eq!(outcome.status, previous);
    assert!(!outcome.persisted);
    assert_no_discovery(&cluster);
}

#[test]
fn a_release_request_does_not_perform_discovery() {
    let previous = NodeMaintenanceRequestStatus {
        phase: MaintenancePhase::Prepared,
        observed_generation: Some(1),
        ..Default::default()
    };
    let mut cluster = Cluster {
        node: Some(node()),
        pods: vec![pod("kv-0", Some("worker-04"), true)],
        settled: Some(NodeMaintenanceRequestStatus {
            observed_desired_state: Some(MaintenanceDesiredState::Complete),
            ..settled(MaintenancePhase::Releasing, None)
        }),
        ..Default::default()
    };
    let spec = NodeMaintenanceRequestSpec {
        desired_state: MaintenanceDesiredState::Complete,
        ..spec()
    };
    let outcome = run_spec(&mut cluster, &spec, &previous).unwrap();

    assert_eq!(
        outcome.status.observed_desired_state,
        Some(MaintenanceDesiredState::Complete)
    );
    assert_no_discovery(&cluster);

    let repeat = run_spec(&mut cluster, &spec, &outcome.status).unwrap();
    assert!(!repeat.persisted);
    assert_eq!(cluster.patches.len(), 1);
}

#[test]
fn a_duplicate_delivery_does_not_rewrite_a_prepared_request() {
    let mut cluster = Cluster {
        node: Some(node()),
        pods: vec![pod("kv-2", Some("worker-04"), false)],
        discovered: with_sets(
            settled(MaintenancePhase::Preparing, None),
            vec![affected("kv", false)],
        ),
        prepared: with_sets(
            settled(MaintenancePhase::Prepared, None),
            vec![affected("kv", false)],
        ),
        ..Default::default()
    };
    let first = run(&mut cluster, &NodeMaintenanceRequestStatus::default()).unwrap();
    assert!(first.persisted);

    let second = run(&mut cluster, &first.status).unwrap();
    assert!(!second.persisted);
    assert_eq!(second.status, first.status);
    assert_eq!(cluster.patches.len(), 1);
}

#[test]
fn a_verdict_that_is_settled_again_is_not_written_again() {
    let judge = |previous: &NodeMaintenanceRequestStatus, phase: MaintenancePhase, later: i64| {
        let instant = Timestamp::new(1_790_000_000 + later, 0).unwrap();
        let known = NodeMaintenanceRequestStatus {
            observed_generation: Some(1),
            node_uid: Some("node-uid-a".to_string()),
            ..previous.clone()
        };
        finish(known, phase, None, None, &instant)
    };
    for phase in [MaintenancePhase::Preparing, MaintenancePhase::Prepared] {
        let mut cluster = Cluster {
            node: Some(node()),
            ..Default::default()
        };
        let previous = NodeMaintenanceRequestStatus::default();
        cluster.prepared = judge(&previous, phase, 0);
        let first = run(&mut cluster, &previous).unwrap();
        assert!(first.persisted);
        assert_eq!(
            first.status.prepared_at.is_some(),
            phase == MaintenancePhase::Prepared
        );

        cluster.prepared = judge(&first.status, phase, 60);
        cluster.fail_patch = true;
        let second = run(&mut cluster, &first.status).unwrap();
        assert!(!second.persisted);
        assert_eq!(second.status, first.status);
        assert_eq!(cluster.patches.len(), 1);
    }
}

#[test]
fn preparation_resumes_from_persisted_status_after_a_restart() {
    let prepared = settled(MaintenancePhase::Prepared, None);
    let persisted = run(
        &mut Cluster {
            node: Some(node()),
            prepared: prepared.clone(),
            ..Default::default()
        },
        &NodeMaintenanceRequestStatus::default(),
    )
    .unwrap()
    .status;

    let mut restarted = Cluster {
        node: Some(node()),
        prepared,
        ..Default::default()
    };
    let resumed = run(&mut restarted, &persisted).unwrap();

    assert_eq!(resumed.status.phase, MaintenancePhase::Prepared);
    assert_eq!(resumed.status.prepared_at, persisted.prepared_at);
    assert!(!resumed.persisted);
}

#[test]
fn a_node_without_replicas_is_prepared_without_a_topology_read() {
    let mut cluster = Cluster {
        node: Some(node()),
        pods: vec![pod("kv-0", Some("worker-09"), true)],
        discovered: settled(MaintenancePhase::Preparing, None),
        prepared: settled(MaintenancePhase::Prepared, None),
        ..Default::default()
    };
    let outcome = run(&mut cluster, &NodeMaintenanceRequestStatus::default()).unwrap();

    assert_eq!(outcome.status.phase, MaintenancePhase::Prepared);
    assert!(outcome.status.affected_sets.is_empty());
    assert_eq!(cluster.topology_calls.len(), 0);
    assert_eq!(cluster.judged_topologies, Some(0));
}

#[test]
fn a_request_before_its_window_does_not_list_pods() {
    let mut cluster = Cluster {
        node: Some(node()),
        pods: vec![pod("kv-0", Some("worker-04"), true)],
        settled: Some(settled(MaintenancePhase::Requested, None)),
        ..Default::default()
    };
    let spec = NodeMaintenanceRequestSpec {
        not_before: Some("2026-09-06T21:00:00Z".to_string()),
        ..spec()
    };
    let outcome = run_spec(
        &mut cluster,
        &spec,
        &NodeMaintenanceRequestStatus::default(),
    )
    .unwrap();

    assert_eq!(outcome.status.phase, MaintenancePhase::Requested);
    assert_no_discovery(&cluster);
}

#[test]
fn an_invalid_deadline_blocks_without_discovery() {
    let mut cluster = Cluster {
        node: Some(node()),
        pods: vec![pod("kv-0", Some("worker-04"), true)],
        settled: Some(settled(
            MaintenancePhase::Blocked,
            Some(MaintenanceBlockedReason::InvalidDeadline),
        )),
        ..Default::default()
    };
    let spec = NodeMaintenanceRequestSpec {
        deadline: Some("tomorrow".to_string()),
        ..spec()
    };
    let outcome = run_spec(
        &mut cluster,
        &spec,
        &NodeMaintenanceRequestStatus::default(),
    )
    .unwrap();

    assert_eq!(outcome.status.phase, MaintenancePhase::Blocked);
    assert_eq!(
        outcome.status.blocked_reason,
        Some(MaintenanceBlockedReason::InvalidDeadline)
    );
    assert_no_discovery(&cluster);
}

#[test]
fn discovery_is_persisted_through_the_status_subresource() {
    let preparing = with_sets(
        settled(MaintenancePhase::Preparing, None),
        vec![affected("kv", true)],
    );
    let mut cluster = Cluster {
        node: Some(node()),
        pods: vec![pod("kv-0", Some("worker-04"), true)],
        discovered: preparing.clone(),
        prepared: preparing,
        ..Default::default()
    };
    let outcome = run(&mut cluster, &NodeMaintenanceRequestStatus::default()).unwrap();

    assert!(outcome.persisted);
    assert_eq!(outcome.status.phase, MaintenancePhase::Preparing);
    assert_eq!(outcome.status.node_uid.as_deref(), Some("node-uid-a"));

    assert_eq!(cluster.patches.len(), 1);
    assert_eq!(cluster.patches[0].affected_sets.len(), 1);
    assert!(cluster.patches[0].affected_sets[0].hosts_primary);
}

#[test]
fn unchanged_status_is_not_rewritten() {
    let preparing = with_sets(
        settled(MaintenancePhase::Preparing, None),
        vec![affected("kv", false)],
    );
    let mut cluster = Cluster {
        node: Some(node()),
        pods: vec![pod("kv-0", Some("worker-04"), false)],
        discovered: preparing.clone(),
        prepared: preparing,
        ..Default::default()
    };
    let first = run(&mut cluster, &NodeMaintenanceRequestStatus::default()).unwrap();
    assert!(first.persisted);

    let second = run(&mut cluster, &first.status).unwrap();
    assert!(!second.persisted);
    assert_eq!(second.status, first.status);
    assert_eq!(cluster.patches.len(), 1);
}

#[test]
fn missing_node_blocks_without_listing_pods() {
    let mut cluster = Cluster {
        node: None,
        pods: vec![pod("kv-0", Some("worker-04"), true)],
        discovered: settled(
            MaintenancePhase::Blocked,
            Some(MaintenanceBlockedReason::NodeNotFound),
        ),
        ..Default::default()
    };
    let outcome = run(&mut cluster, &NodeMaintenanceRequestStatus::default()).unwrap();

    assert_eq!(outcome.status.phase, MaintenancePhase::Blocked);
    assert_eq!(
        outcome.status.blocked_reason,
        Some(MaintenanceBlockedReason::NodeNotFound)
    );
    assert_eq!(cluster.list_calls, 0);
    assert_eq!(cluster.judged_topologies, None);
}

#[test]
fn status_patch_failure_is_reported() {
    let mut cluster = Cluster {
        node: Some(node()),
        pods: vec![pod("kv-0", Some("worker-04"), false)],
        prepared: settled(MaintenancePhase::Preparing, None),
        fail_patch: true,
        ..Default::default()
    };
    let result = run(&mut cluster, &NodeMaintenanceRequestStatus::default());
    assert_eq!(result.unwrap_err(), "status patch rejected");
}

#[test]
fn every_affected_set_is_read_in_order() {
    let mut cluster = Cluster {
        node: Some(node()),
        discovered: with_sets(
            settled(MaintenancePhase::Preparing, None),
            vec![affected("kv", false), affected("sql", false)],
        ),
        prepared: settled(MaintenancePhase::Prepared, None),
        ..Default::default()
    };
    run(&mut cluster, &NodeMaintenanceRequestStatus::default()).unwrap();
    assert_eq!(
        cluster.topology_calls,
        vec![
            ("default".to_string(), "kv".to_string()),
            ("default".to_string(), "sql".to_string())
        ]
    );
    assert_eq!(cluster.judged_topologies, Some(2));
}

#[test]
fn failed_reads_end_the_reconcile_without_a_write() {
    let mut cluster = Cluster {
        fail_get_node: true,
        ..Default::default()
    };
    let result = run(&mut cluster, &NodeMaintenanceRequestStatus::default());
    assert_eq!(result.unwrap_err(), "node read rejected");
    assert!(cluster.patches.is_empty());

    let mut cluster = Cluster {
        node: Some(node()),
        fail_topology: true,
        discovered: with_sets(
            settled(MaintenancePhase::Preparing, None),
            vec![affected("kv", false)],
        ),
        ..Default::default()
    };
    let result = run(&mut cluster, &NodeMaintenanceRequestStatus::default());
    assert_eq!(result.unwrap_err(), "topology read rejected");
    assert!(cluster.patches.is_empty());
}

fn pod_record(name: &str) -> PodRecord {
    PodRecord {
        namespace: Some("default".to_string()),
        name: Some(name.to_string()),
        uid: Some(format!("uid-{name}")),
        node_name: None,
        labels: None,
    }
}

#[test]
fn pod_conversion_requires_the_set_label() {
    let mut pod = pod_record("kv-0");
    assert!(pod_to_maintenance_pod(&pod).is_none());

    pod.labels = Some(vec![(SET_LABEL.to_string(), "kv".to_string())]);
    let converted = pod_to_maintenance_pod(&pod).expect("converted");
    assert_eq!(converted.set_name, "kv");
    assert!(!converted.is_primary);
    assert_eq!(converted.node_name, None);
}

#[test]
fn pod_conversion_reads_node_and_primary_role() {
    let mut pod = pod_record("kv-1");
    pod.labels = Some(vec![
        (SET_LABEL.to_string(), "kv".to_string()),
        (ROLE_LABEL.to_string(), "primary".to_string()),
    ]);
    pod.node_name = Some("worker-04".to_string());

    let converted = pod_to_maintenance_pod(&pod).expect("converted");
    assert_eq!(converted.node_name.as_deref(), Some("worker-04"));
    assert!(converted.is_primary);
}

#[test]
fn unidentified_pods_are_left_out() {
    let labelled = |name: &str| PodRecord {
        labels: Some(vec![(SET_LABEL.to_string(), "kv".to_string())]),
        ..pod_record(name)
    };
    let mut nameless = labelled("kv-3");
    nameless.name = None;
    let mut homeless = labelled("kv-4");
    homeless.namespace = None;
    let mut anonymous = labelled("kv-5");
    anonymous.uid = None;
    let pods = vec![
        labelled("kv-0"),
        pod_record("kv-1"),
        nameless,
        homeless,
        anonymous,
        labelled("kv-2"),
    ];
    let names: Vec<String> = maintenance_pods(&pods)
        .into_iter()
        .map(|pod| pod.name)
        .collect();
    assert_eq!(names, vec!["kv-0".to_string(), "kv-2".to_string()]);
}

#[test]
fn a_node_is_ready_only_while_it_stays() {
    let conditions = |ready: &str| {
        vec![
            ("DiskPressure".to_string(), "True".to_string()),
            ("Ready".to_string(), ready.to_string()),
        ]
    };
    let read = |conditions: Vec<(String, String)>, deleting| {
        get_node(
            "worker-04",
            NodeRead::Found {
                uid: Some("node-uid-a".to_string()),
                conditions,
                deleting,
            },
        )
        .unwrap()
        .unwrap()
    };
    assert_eq!(read(conditions("True"), false), node());
    assert!(!read(conditions("False"), false).ready);
    assert!(!read(Vec::new(), false).ready);
    assert!(!read(conditions("True"), true).ready);
    assert_eq!(
        get_node(
            "worker-04",
            NodeRead::Found {
                uid: None,
                conditions: conditions("True"),
                deleting: false
            }
        ),
        Err("node worker-04 has no uid".to_string())
    );
    let refused = |code| {
        get_node(
            "worker-04",
            NodeRead::Refused {
                code,
                reason: "refused".to_string(),
            },
        )
    };
    assert_eq!(refused(404), Ok(None));
    assert_eq!(refused(500), Err("refused".to_string()));
    assert_eq!(
        get_node(
            "worker-04",
            NodeRead::Failed {
                reason: "unreachable".to_string()
            }
        ),
        Err("unreachable".to_string())
    );
}

#[test]
fn a_topology_is_read_from_the_published_snapshot() {
    assert!(get_set_topology(None).is_none());
    let member = |id: i64| SnapshotMember {
        id,
        instance_id: format!("uid-{id}"),
    };
    let snapshot = StableSnapshot {
        members: vec![member(1), member(2), member(3)],
        primary_id: 2,
        write_quorum: 2,
    };
    let topology = get_set_topology(Some(&snapshot)).unwrap();
    assert_eq!(topology.primary_pod_uid.as_deref(), Some("uid-2"));
    assert_eq!(topology.member_pod_uids, vec!["uid-1", "uid-2", "uid-3"]);
    assert_eq!(topology.write_quorum, 2);
    let headless = StableSnapshot {
        primary_id: 9,
        ..snapshot
    };
    assert_eq!(
        get_set_topology(Some(&headless)).unwrap().primary_pod_uid,
        None
    );
}

#[test]
fn a_status_is_written_only_for_the_observed_request() {
    let spec = spec();
    let previous = NodeMaintenanceRequestStatus::default();
    let now = now();
    let ctx = RequestContext {
        name: "req-1",
        uid: "request-uid",
        resource_version: "7",
        deleting: false,
        spec: &spec,
        generation: Some(1),
        previous: &previous,
        now: &now,
    };
    let observed = || RequestRecord {
        uid: Some("request-uid".to_string()),
        resource_version: Some("7".to_string()),
        deleting: false,
        generation: Some(1),
        spec: spec.clone(),
    };
    assert_eq!(patch_request_status(&ctx, &observed()), Ok(()));
    let refused = |record: RequestRecord| {
        assert_eq!(
            patch_request_status(&ctx, &record),
            Err("maintenance request req-1 changed after it was observed".to_string())
        );
    };
    refused(RequestRecord {
        uid: Some("another-uid".to_string()),
        ..observed()
    });
    refused(RequestRecord {
        uid: None,
        ..observed()
    });
    refused(RequestRecord {
        resource_version: Some("8".to_string()),
        ..observed()
    });
    refused(RequestRecord {
        deleting: true,
        ..observed()
    });
    refused(RequestRecord {
        generation: Some(2),
        ..observed()
    });
    refused(RequestRecord {
        spec: NodeMaintenanceRequestSpec {
            node_recovery: NodeRecovery::MayDisappear,
            ..spec.clone()
        },
        ..observed()
    });
}
