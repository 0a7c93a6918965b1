//! Where a primary goes when its node is under maintenance.

use vstd::prelude::*;

use crate::text;

verus! {

/// A replica as placement sees it.
#[derive(Debug, PartialEq, Clone)]
pub struct PlacementCandidate {
    pub replica_id: i64,
    pub pod_name: String,
    /// The node that the pod is scheduled to, if it is.
    pub node_name: Option<String>,
}

impl PlacementCandidate {
    /// Whether the replica runs on one of `nodes`.
    pub open spec fn under_maintenance(self, nodes: Seq<Seq<char>>) -> bool {
        self.node_name matches Some(node) && nodes.contains(node@)
    }

    /// Whether the replica can take over from the primary in pod `primary`.
    pub open spec fn eligible(self, primary: Seq<char>, nodes: Seq<Seq<char>>) -> bool {
        &&& self.pod_name@ != primary
        &&& self.node_name is Some
        &&& !self.under_maintenance(nodes)
    }
}

/// Whether the replica at `i` is the first one in pod `name`.
pub open spec fn is_first_named(
    candidates: Seq<PlacementCandidate>,
    name: Seq<char>,
    i: int,
) -> bool {
    &&& 0 <= i < candidates.len()
    &&& candidates[i].pod_name@ == name
    &&& forall|j: int| 0 <= j < i ==> (#[trigger] candidates[j]).pod_name@ != name
}

/// Whether the pod `primary` is known and on a node under maintenance.
pub open spec fn primary_must_move(
    candidates: Seq<PlacementCandidate>,
    primary: Seq<char>,
    nodes: Seq<Seq<char>>,
) -> bool {
    exists|i: int|
        #[trigger] is_first_named(candidates, primary, i) && candidates[i].under_maintenance(nodes)
}

/// Whether the replica at `i` is the eligible one with the lowest replica id, and
/// the first of these.
pub open spec fn is_lowest_eligible(
    candidates: Seq<PlacementCandidate>,
    primary: Seq<char>,
    nodes: Seq<Seq<char>>,
    i: int,
) -> bool {
    &&& 0 <= i < candidates.len()
    &&& candidates[i].eligible(primary, nodes)
    &&& forall|j: int|
        0 <= j < candidates.len() && (#[trigger] candidates[j]).eligible(primary, nodes) ==> (
        candidates[i].replica_id < candidates[j].replica_id || candidates[i].replica_id
            == candidates[j].replica_id && i <= j)
}

/// The pod that takes over as primary, if the current primary has to move and
/// there is one.
pub open spec fn switchover_target(
    candidates: Seq<PlacementCandidate>,
    primary: Option<Seq<char>>,
    nodes: Seq<Seq<char>>,
    target: Option<Seq<char>>,
) -> bool {
    let moves = primary is Some && primary_must_move(candidates, primary->Some_0, nodes);
    match target {
        Some(name) => moves && exists|i: int| #[trigger]
            is_lowest_eligible(candidates, primary->Some_0, nodes, i)
                && candidates[i].pod_name@ == name,
        None => moves ==> forall|i: int|
            0 <= i < candidates.len() ==> !(#[trigger] candidates[i]).eligible(
                primary->Some_0,
                nodes,
            ),
    }
}

fn is_under_maintenance(candidate: &PlacementCandidate, maintenance_nodes: &Vec<String>) -> (under:
    bool)
    ensures
        under == candidate.under_maintenance(text::texts(maintenance_nodes@)),
{
    match &candidate.node_name {
        Some(node) => text::holds_text(maintenance_nodes, node),
        None => false,
    }
}

fn find_primary(candidates: &[PlacementCandidate], name: &String) -> (found: Option<usize>)
    ensures
        match found {
            Some(i) => is_first_named(candidates@, name@, i as int),
            None => forall|i: int|
                0 <= i < candidates@.len() ==> (#[trigger] candidates@[i]).pod_name@ != name@,
        },
{
    let mut i: usize = 0;
    while i < candidates.len()
        invariant
            i <= candidates@.len(),
            forall|j: int| 0 <= j < i ==> (#[trigger] candidates@[j]).pod_name@ != name@,
        decreases candidates@.len() - i,
    {
        if candidates[i].pod_name == *name {
            return Some(i);
        }
        i += 1;
    }
    None
}

fn find_lowest_eligible(
    candidates: &[PlacementCandidate],
    primary: &String,
    maintenance_nodes: &Vec<String>,
) -> (found: Option<usize>)
    ensures
        match found {
            Some(i) => is_lowest_eligible(
                candidates@,
                primary@,
                text::texts(maintenance_nodes@),
                i as int,
            ),
            None => forall|i: int|
                0 <= i < candidates@.len() ==> !(#[trigger] candidates@[i]).eligible(
                    primary@,
                    text::texts(maintenance_nodes@),
                ),
        },
{
    let ghost nodes = text::texts(maintenance_nodes@);
    let mut best: Option<usize> = None;
    let mut i: usize = 0;
    while i < candidates.len()
        invariant
            i <= candidates@.len(),
            nodes == text::texts(maintenance_nodes@),
            match best {
                Some(b) => b < i && is_lowest_eligible(
                    candidates@.take(i as int),
                    primary@,
                    nodes,
                    b as int,
                ),
                None => forall|j: int|
                    0 <= j < i ==> !(#[trigger] candidates@[j]).eligible(primary@, nodes),
            },
        decreases candidates@.len() - i,
    {
        let candidate = &candidates[i];
        let ghost before = candidates@.take(i as int);
        let ghost after = candidates@.take(i + 1);
        assert(forall|j: int| 0 <= j < i ==> #[trigger] after[j] == before[j]);
        if candidate.pod_name != *primary && candidate.node_name.is_some()
            && !is_under_maintenance(candidate, maintenance_nodes) {
            match best {
                Some(b) => {
                    if candidate.replica_id < candidates[b].replica_id {
                        best = Some(i);
                    }
                },
                None => {
                    best = Some(i);
                },
            }
        }
        proof {
            assert(after[i as int] == candidates@[i as int]);
            if best is Some {
                let b = best->Some_0 as int;
                assert forall|j: int|
                    0 <= j < after.len() && (#[trigger] after[j]).eligible(
                        primary@,
                        nodes,
                    ) implies after[b].replica_id < after[j].replica_id || after[b].replica_id
                    == after[j].replica_id && b <= j by {
                    if j < i {
                        assert(before[j].eligible(primary@, nodes));
                        assert(candidates@[j].eligible(primary@, nodes));
                    }
                }
            }
        }
        i += 1;
    }
    assert(candidates@.take(i as int) =~= candidates@);
    best
}

/// The pod to switch the primary to when the primary's node is under maintenance:
/// the replica with the lowest id that is scheduled to a node not under
/// maintenance. Nothing is moved when there is no maintenance, the primary is not
/// known or its node is not concerned.
pub fn switchover_target_for_maintenance(
    candidates: &[PlacementCandidate],
    current_primary: Option<&str>,
    maintenance_nodes: &Vec<String>,
) -> (target: Option<String>)
    ensures
        switchover_target(
            candidates@,
            match current_primary {
                Some(name) => Some(name@),
                None => None,
            },
            text::texts(maintenance_nodes@),
            text::opt_text(target),
        ),
{
    let ghost nodes = text::texts(maintenance_nodes@);
    if maintenance_nodes.len() == 0 {
        assert(nodes.len() == 0);
        return None;
    }
    let name: String = match current_primary {
        Some(name) => name.to_owned(),
        None => {
            return None;
        },
    };
    let primary: usize = match find_primary(candidates, &name) {
        Some(i) => i,
        None => {
            return None;
        },
    };
    if !is_under_maintenance(&candidates[primary], maintenance_nodes) {
        proof {
            assert forall|i: int| #[trigger]
                is_first_named(candidates@, name@, i) implies i == primary by {
                if i < primary {
                    assert(candidates@[i].pod_name@ != name@);
                }
            }
        }
        return None;
    }
    assert(primary_must_move(candidates@, name@, nodes)) by {
        assert(is_first_named(candidates@, name@, primary as int));
    }
    match find_lowest_eligible(candidates, &name, maintenance_nodes) {
        Some(i) => {
            assert(is_lowest_eligible(candidates@, name@, nodes, i as int));
            let target = candidates[i].pod_name.clone();
            assert(target@ == candidates@[i as int].pod_name@);
            Some(target)
        },
        None => None,
    }
}

/// A primary moves to another pod, which is scheduled to a node that is not under
/// maintenance, and no eligible replica has a lower id than the one it moves to.
pub proof fn switchover_leaves_the_maintenance_nodes(
    candidates: Seq<PlacementCandidate>,
    primary: Seq<char>,
    nodes: Seq<Seq<char>>,
    target: Seq<char>,
)
    requires
        switchover_target(candidates, Some(primary), nodes, Some(target)),
    ensures
        target != primary,
        exists|i: int|
            0 <= i < candidates.len() && (#[trigger] candidates[i]).pod_name@ == target
                && candidates[i].node_name is Some && !candidates[i].under_maintenance(nodes)
                && forall|j: int|
                0 <= j < candidates.len() && (#[trigger] candidates[j]).eligible(primary, nodes)
                    ==> candidates[i].replica_id <= candidates[j].replica_id,
{
    let i = choose|i: int| #[trigger]
        is_lowest_eligible(candidates, primary, nodes, i) && candidates[i].pod_name@ == target;
    assert(candidates[i].pod_name@ == target);
}

/// Which pod takes over is determined by the arguments.
pub proof fn switchover_target_is_unique(
    candidates: Seq<PlacementCandidate>,
    primary: Option<Seq<char>>,
    nodes: Seq<Seq<char>>,
    one: Option<Seq<char>>,
    other: Option<Seq<char>>,
)
    requires
        switchover_target(candidates, primary, nodes, one),
        switchover_target(candidates, primary, nodes, other),
    ensures
        one == other,
{
    if one is Some {
        let i = choose|i: int| #[trigger]
            is_lowest_eligible(candidates, primary->Some_0, nodes, i) && candidates[i].pod_name@
                == one->Some_0;
        assert(candidates[i].eligible(primary->Some_0, nodes));
    }
    if other is Some {
        let j = choose|j: int| #[trigger]
            is_lowest_eligible(candidates, primary->Some_0, nodes, j) && candidates[j].pod_name@
                == other->Some_0;
        assert(candidates[j].eligible(primary->Some_0, nodes));
    }
}

/// Where no two pods have the same name, the pod that takes over is not itself asked to
/// move.
pub proof fn switchover_targets_stay(
    candidates: Seq<PlacementCandidate>,
    primary: Seq<char>,
    nodes: Seq<Seq<char>>,
    target: Seq<char>,
    next: Option<Seq<char>>,
)
    requires
        forall|i: int, j: int|
            0 <= i < j < candidates.len() ==> (#[trigger] candidates[i]).pod_name@ != (
            #[trigger] candidates[j]).pod_name@,
        switchover_target(candidates, Some(primary), nodes, Some(target)),
        switchover_target(candidates, Some(target), nodes, next),
    ensures
        next is None,
{
    let i = choose|i: int| #[trigger]
        is_lowest_eligible(candidates, primary, nodes, i) && candidates[i].pod_name@ == target;
    assert forall|j: int| #[trigger] is_first_named(candidates, target, j) implies j == i by {
        if j < i {
            assert(candidates[j].pod_name@ != candidates[i].pod_name@);
        } else if i < j {
            assert(candidates[i].pod_name@ != candidates[j].pod_name@);
        }
    }
}

/// Whether a replica is scheduled to one of `nodes`.
pub open spec fn runs_on(candidate: PlacementCandidate, nodes: Seq<Seq<char>>) -> bool {
    exists|k: int|
        0 <= k < nodes.len() && text::opt_text(candidate.node_name) == Some(#[trigger] nodes[k])
}

/// Nothing moves unless the primary is known and its pod, the first of that name, runs on a
/// node under maintenance.
pub proof fn nothing_moves_without_need(
    candidates: Seq<PlacementCandidate>,
    primary: Option<Seq<char>>,
    nodes: Seq<Seq<char>>,
    target: Option<Seq<char>>,
    first: int,
)
    requires
        switchover_target(candidates, primary, nodes, target),
        primary is None || (forall|i: int|
            0 <= i < candidates.len() ==> (#[trigger] candidates[i]).pod_name@ != primary->Some_0)
            || nodes.len() == 0 || (0 <= first < candidates.len() && candidates[first].pod_name@
            == primary->Some_0 && !runs_on(candidates[first], nodes) && forall|j: int|
            0 <= j < first ==> (#[trigger] candidates[j]).pod_name@ != primary->Some_0),
    ensures
        target is None,
{
    if target is Some {
        let i = choose|i: int| #[trigger]
            is_first_named(candidates, primary->Some_0, i) && candidates[i].under_maintenance(nodes);
        assert(candidates[i].pod_name@ == primary->Some_0);
        let node = candidates[i].node_name->Some_0@;
        let k = choose|k: int| 0 <= k < nodes.len() && nodes[k] == node;
        assert(text::opt_text(candidates[i].node_name) == Some(nodes[k]));
        assert(runs_on(candidates[i], nodes));
        if nodes.len() > 0 && 0 <= first < candidates.len() {
            if i < first {
                assert(candidates[i].pod_name@ != primary->Some_0);
            } else if first < i && candidates[first].pod_name@ == primary->Some_0 {
                assert(candidates[first].pod_name@ != primary->Some_0);
            }
        }
    }
}

/// Where the pod of the primary, the first of its name, runs on a node under maintenance,
/// the primary moves to another pod that runs on a node which is not, if there is any: to
/// that of the lowest replica id, and among equal ones to the first.
pub proof fn primaries_move_to_the_lowest_replica_elsewhere(
    candidates: Seq<PlacementCandidate>,
    primary: Seq<char>,
    nodes: Seq<Seq<char>>,
    target: Option<Seq<char>>,
    first: int,
    other: int,
)
    requires
        switchover_target(candidates, Some(primary), nodes, target),
        0 <= first < candidates.len(),
        candidates[first].pod_name@ == primary,
        forall|j: int| 0 <= j < first ==> (#[trigger] candidates[j]).pod_name@ != primary,
        runs_on(candidates[first], nodes),
        0 <= other < candidates.len(),
        candidates[other].pod_name@ != primary,
        candidates[other].node_name is Some,
        !runs_on(candidates[other], nodes),
    ensures
        target is Some,
        exists|i: int|
            {
                &&& 0 <= i < candidates.len()
                &&& (#[trigger] candidates[i]).pod_name@ == target->Some_0
                &&& candidates[i].pod_name@ != primary
                &&& candidates[i].node_name is Some
                &&& !runs_on(candidates[i], nodes)
                &&& candidates[i].replica_id < candidates[other].replica_id
                    || candidates[i].replica_id == candidates[other].replica_id && i <= other
            },
{
    let k = choose|k: int|
        0 <= k < nodes.len() && text::opt_text(candidates[first].node_name) == Some(
            #[trigger] nodes[k],
        );
    assert(nodes.contains(candidates[first].node_name->Some_0@));
    assert(is_first_named(candidates, primary, first));
    assert(primary_must_move(candidates, primary, nodes));
    assert(candidates[other].eligible(primary, nodes)) by {
        if candidates[other].under_maintenance(nodes) {
            let node = candidates[other].node_name->Some_0@;
            let m = choose|m: int| 0 <= m < nodes.len() && nodes[m] == node;
            assert(text::opt_text(candidates[other].node_name) == Some(nodes[m]));
        }
    }
    let i = choose|i: int| #[trigger]
        is_lowest_eligible(candidates, primary, nodes, i) && candidates[i].pod_name@
            == target->Some_0;
    assert(candidates[i].eligible(primary, nodes));
    if runs_on(candidates[i], nodes) {
        let m = choose|m: int|
            0 <= m < nodes.len() && text::opt_text(candidates[i].node_name) == Some(
                #[trigger] nodes[m],
            );
        assert(nodes.contains(candidates[i].node_name->Some_0@));
    }
}

/// Where there is no such pod, nothing moves.
pub proof fn primaries_stay_where_there_is_nowhere_to_go(
    candidates: Seq<PlacementCandidate>,
    primary: Seq<char>,
    nodes: Seq<Seq<char>>,
    target: Option<Seq<char>>,
)
    requires
        switchover_target(candidates, Some(primary), nodes, target),
        forall|i: int|
            0 <= i < candidates.len() ==> (#[trigger] candidates[i]).pod_name@ == primary
                || candidates[i].node_name is None || runs_on(candidates[i], nodes),
    ensures
        target is None,
{
    if target is Some {
        let i = choose|i: int| #[trigger]
            is_lowest_eligible(candidates, primary, nodes, i) && candidates[i].pod_name@
                == target->Some_0;
        assert(candidates[i].pod_name@ == primary || candidates[i].node_name is None || runs_on(
            candidates[i],
            nodes,
        ));
        let m = choose|m: int|
            0 <= m < nodes.len() && text::opt_text(candidates[i].node_name) == Some(
                #[trigger] nodes[m],
            );
        assert(nodes.contains(candidates[i].node_name->Some_0@));
    }
}

} // verus!
