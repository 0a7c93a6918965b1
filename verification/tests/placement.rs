use kuberic::maintenance::placement::{switchover_target_for_maintenance, PlacementCandidate};

fn candidate(id: i64, node: Option<&str>) -> PlacementCandidate {
    PlacementCandidate {
        replica_id: id,
        pod_name: format!("kv-{}", id - 1),
        node_name: node.map(str::to_string),
    }
}

fn nodes(names: &[&str]) -> Vec<String> {
    names.iter().map(|name| name.to_string()).collect()
}

#[test]
fn no_maintenance_leaves_placement_untouched() {
    let candidates = [
        candidate(1, Some("worker-04")),
        candidate(2, Some("worker-05")),
    ];
    assert_eq!(
        switchover_target_for_maintenance(&candidates, Some("kv-0"), &nodes(&[])),
        None
    );
}

#[test]
fn a_primary_off_the_maintenance_node_is_not_moved() {
    let candidates = [
        candidate(1, Some("worker-05")),
        candidate(2, Some("worker-04")),
    ];
    assert_eq!(
        switchover_target_for_maintenance(&candidates, Some("kv-0"), &nodes(&["worker-04"])),
        None
    );
}

#[test]
fn a_primary_on_the_maintenance_node_moves_to_the_lowest_eligible_replica() {
    let candidates = [
        candidate(1, Some("worker-04")),
        candidate(3, Some("worker-06")),
        candidate(2, Some("worker-05")),
    ];
    assert_eq!(
        switchover_target_for_maintenance(&candidates, Some("kv-0"), &nodes(&["worker-04"])),
        Some("kv-1".to_string())
    );
}

#[test]
fn a_replica_on_another_maintenance_node_is_not_a_target() {
    let candidates = [
        candidate(1, Some("worker-04")),
        candidate(2, Some("worker-05")),
        candidate(3, Some("worker-06")),
    ];
    assert_eq!(
        switchover_target_for_maintenance(
            &candidates,
            Some("kv-0"),
            &nodes(&["worker-04", "worker-05"])
        ),
        Some("kv-2".to_string())
    );
}

#[test]
fn a_target_is_not_asked_to_move() {
    let candidates = [
        candidate(1, Some("worker-04")),
        candidate(2, Some("worker-05")),
        candidate(3, Some("worker-06")),
    ];
    let maintained = nodes(&["worker-04", "worker-06"]);
    let target = switchover_target_for_maintenance(&candidates, Some("kv-0"), &maintained);
    assert_eq!(target, Some("kv-1".to_string()));
    assert_eq!(
        switchover_target_for_maintenance(&candidates, target.as_deref(), &maintained),
        None
    );
}

#[test]
fn an_unscheduled_replica_is_not_a_target() {
    let candidates = [candidate(1, Some("worker-04")), candidate(2, None)];
    assert_eq!(
        switchover_target_for_maintenance(&candidates, Some("kv-0"), &nodes(&["worker-04"])),
        None
    );
}

#[test]
fn every_replica_on_maintenance_nodes_yields_no_target() {
    let candidates = [
        candidate(1, Some("worker-04")),
        candidate(2, Some("worker-04")),
    ];
    assert_eq!(
        switchover_target_for_maintenance(&candidates, Some("kv-0"), &nodes(&["worker-04"])),
        None
    );
}

#[test]
fn an_unknown_primary_yields_no_target() {
    let candidates = [candidate(1, Some("worker-04"))];
    assert_eq!(
        switchover_target_for_maintenance(&candidates, Some("kv-9"), &nodes(&["worker-04"])),
        None
    );
    assert_eq!(
        switchover_target_for_maintenance(&candidates, None, &nodes(&["worker-04"])),
        None
    );
}

#[test]
fn the_first_of_equal_replica_ids_is_the_target() {
    let mut twin = candidate(2, Some("worker-06"));
    twin.pod_name = "kv-twin".to_string();
    let candidates = [
        candidate(1, Some("worker-04")),
        twin,
        candidate(2, Some("worker-05")),
    ];
    assert_eq!(
        switchover_target_for_maintenance(&candidates, Some("kv-0"), &nodes(&["worker-04"])),
        Some("kv-twin".to_string())
    );
}
