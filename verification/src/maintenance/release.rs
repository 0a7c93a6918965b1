//! How a node is released once a coordinator has completed or cancelled its
//! maintenance.

use vstd::prelude::*;

use crate::maintenance::api::{
    MaintenanceBlockedReason, MaintenanceDesiredState, MaintenancePhase,
    NodeMaintenanceRequestSpec, NodeMaintenanceRequestStatus, NodeRecovery, NodeRef, SpecView,
    StatusView,
};
use crate::maintenance::clock::Timestamp;
use crate::maintenance::status::finish;
use crate::text;

verus! {

/// What a release comes to.
pub enum ReleaseDecision {
    /// The node is gone and need not come back.
    ReleaseWithoutNode,
    WaitForNode,
    /// Another incarnation of the node is there, which nobody has confirmed.
    WaitForConfirmation,
    WaitForReadiness,
    ReleaseNode,
}

/// The incarnation of the node that a release is for: the one that the coordinator
/// has confirmed, or else the one that was prepared.
pub open spec fn expected_uid(spec: SpecView, status: StatusView) -> Option<Seq<char>> {
    match spec.release_node_uid {
        Some(uid) => Some(uid),
        None => status.node_uid,
    }
}

/// Whether the absence of the node is no obstacle to its release.
pub open spec fn may_be_absent(spec: SpecView) -> bool {
    &&& spec.release_node_uid is None
    &&& spec.desired_state is Cancel || spec.node_recovery is MayDisappear
}

/// What a release comes to while `node` is the node of the requested name.
pub open spec fn decide(
    spec: SpecView,
    status: StatusView,
    node: Option<NodeRef>,
) -> ReleaseDecision {
    match node {
        None => if may_be_absent(spec) {
            ReleaseDecision::ReleaseWithoutNode
        } else {
            ReleaseDecision::WaitForNode
        },
        Some(node) => {
            let expected = expected_uid(spec, status);
            if expected is Some && expected != Some(node.uid@) {
                ReleaseDecision::WaitForConfirmation
            } else if !node.ready {
                ReleaseDecision::WaitForReadiness
            } else {
                ReleaseDecision::ReleaseNode
            }
        },
    }
}

/// The message that goes with a decision.
pub open spec fn release_message(
    decision: ReleaseDecision,
    spec: SpecView,
    uid: Seq<char>,
) -> Seq<char> {
    match decision {
        ReleaseDecision::ReleaseWithoutNode => spec.desired_state.spec_name()
            + " acknowledged; the target Node no longer exists"@,
        ReleaseDecision::WaitForNode => "waiting for Node "@ + spec.node_name
            + " to return before release"@,
        ReleaseDecision::WaitForConfirmation => "Node "@ + spec.node_name + " now has UID "@ + uid
            + "; confirm this incarnation with spec.releaseNodeUid after recovery"@,
        ReleaseDecision::WaitForReadiness => "waiting for Node "@ + spec.node_name
            + " to be Ready before release"@,
        ReleaseDecision::ReleaseNode => spec.desired_state.spec_name()
            + " acknowledged for Node UID "@ + uid
            + "; this request no longer excludes primary placement"@,
    }
}

impl StatusView {
    /// The status after a release has been tried while `node` is the node of the
    /// requested name.
    pub open spec fn after_release(
        self,
        spec: SpecView,
        node: Option<NodeRef>,
        now: Seq<char>,
    ) -> StatusView {
        let decision = decide(spec, self, node);
        let uid = match node {
            Some(node) => node.uid@,
            None => Seq::empty(),
        };
        let message = Some(release_message(decision, spec, uid));
        match decision {
            ReleaseDecision::ReleaseWithoutNode => (StatusView {
                released_at: Some(now),
                ..self
            }).finished(MaintenancePhase::Released, None, message, now),
            ReleaseDecision::WaitForNode => self.finished(
                MaintenancePhase::Releasing,
                Some(MaintenanceBlockedReason::NodeNotFound),
                message,
                now,
            ),
            ReleaseDecision::WaitForConfirmation => self.finished(
                MaintenancePhase::Releasing,
                Some(MaintenanceBlockedReason::NodeIncarnationChanged),
                message,
                now,
            ),
            ReleaseDecision::WaitForReadiness => self.finished(
                MaintenancePhase::Releasing,
                Some(MaintenanceBlockedReason::NodeNotReady),
                message,
                now,
            ),
            ReleaseDecision::ReleaseNode => (StatusView {
                released_node_uid: Some(uid),
                released_at: Some(now),
                ..self
            }).finished(MaintenancePhase::Released, None, message, now),
        }
    }
}

/// Tries to release a node. An absent node is released on cancellation, or where it
/// may disappear, unless a particular incarnation has been asked for. A node that
/// is there is released once it is ready and is the expected incarnation.
pub fn reconcile_release(
    spec: &NodeMaintenanceRequestSpec,
    status: NodeMaintenanceRequestStatus,
    node: Option<&NodeRef>,
    now: &Timestamp,
) -> (outcome: NodeMaintenanceRequestStatus)
    ensures
        outcome@ == status@.after_release(
            spec@,
            match node {
                Some(node) => Some(*node),
                None => None,
            },
            now@,
        ),
{
    let mut status = status;
    let node: &NodeRef = match node {
        Some(node) => node,
        None => {
            if spec.release_node_uid.is_none() && (spec.desired_state
                == MaintenanceDesiredState::Cancel || spec.node_recovery
                == NodeRecovery::MayDisappear) {
                status.released_at = Some(now.text());
                let mut message = spec.desired_state.name().to_owned();
                message.append(" acknowledged; the target Node no longer exists");
                return finish(status, MaintenancePhase::Released, None, Some(message), now);
            }
            let mut message = "waiting for Node ".to_owned();
            message.append(spec.node_name.as_str());
            message.append(" to return before release");
            return finish(
                status,
                MaintenancePhase::Releasing,
                Some(MaintenanceBlockedReason::NodeNotFound),
                Some(message),
                now,
            );
        },
    };
    let changed = match &spec.release_node_uid {
        Some(expected) => *expected != node.uid,
        None => match &status.node_uid {
            Some(expected) => *expected != node.uid,
            None => false,
        },
    };
    if changed {
        let mut message = "Node ".to_owned();
        message.append(spec.node_name.as_str());
        message.append(" now has UID ");
        message.append(node.uid.as_str());
        message.append("; confirm this incarnation with spec.releaseNodeUid after recovery");
        return finish(
            status,
            MaintenancePhase::Releasing,
            Some(MaintenanceBlockedReason::NodeIncarnationChanged),
            Some(message),
            now,
        );
    }
    if !node.ready {
        let mut message = "waiting for Node ".to_owned();
        message.append(spec.node_name.as_str());
        message.append(" to be Ready before release");
        return finish(
            status,
            MaintenancePhase::Releasing,
            Some(MaintenanceBlockedReason::NodeNotReady),
            Some(message),
            now,
        );
    }
    status.released_node_uid = Some(node.uid.clone());
    status.released_at = Some(now.text());
    let mut message = spec.desired_state.name().to_owned();
    message.append(" acknowledged for Node UID ");
    message.append(node.uid.as_str());
    message.append("; this request no longer excludes primary placement");
    finish(status, MaintenancePhase::Released, None, Some(message), now)
}

} // verus!
