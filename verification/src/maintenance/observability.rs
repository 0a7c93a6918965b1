//! Events that report how a request advances.

use vstd::prelude::*;

use crate::maintenance::api::{
    self, MaintenanceDesiredState, MaintenancePhase, NodeMaintenanceRequestSpec,
    NodeMaintenanceRequestStatus, SpecView, StatusView,
};
use crate::maintenance::controller::ReconcileOutcome;
use crate::text;

verus! {

/// Most bytes that the note of an event takes.
pub const NOTE_LIMIT: usize = 1024;

#[derive(Clone, Copy, Debug, PartialEq, Eq, Structural)]
pub enum EventType {
    Normal,
    Warning,
}

/// A reference to an object of the cluster.
#[derive(Clone, Debug, PartialEq, Eq)]
pub struct ObjectReference {
    pub api_version: Option<String>,
    pub kind: Option<String>,
    pub name: Option<String>,
    pub uid: Option<String>,
}

/// An event about a request.
#[derive(Clone, Debug, PartialEq, Eq)]
pub struct Event {
    pub type_: EventType,
    pub reason: String,
    pub action: String,
    pub note: Option<String>,
    pub secondary: Option<ObjectReference>,
}

/// Whether a reconcile that has come to `after` is worth an event.
pub open spec fn is_transition(before: StatusView, after: StatusView, persisted: bool) -> bool {
    persisted && (before.phase != after.phase || before.blocked_reason != after.blocked_reason)
}

/// The reason of the event: how the request was released, what blocks it, or else
/// its phase.
pub open spec fn event_reason(status: StatusView) -> Seq<char> {
    if status.phase is Released {
        if status.observed_desired_state == Some(MaintenanceDesiredState::Cancel) {
            "Cancelled"@
        } else {
            "Completed"@
        }
    } else {
        match status.blocked_reason {
            Some(reason) => reason.spec_name(),
            None => status.phase.spec_name(),
        }
    }
}

/// The node incarnation that the event is about: the released one where there is
/// one, or else the prepared one.
pub open spec fn event_node_uid(status: StatusView) -> Option<Seq<char>> {
    match status.released_node_uid {
        Some(uid) => Some(uid),
        None => status.node_uid,
    }
}

impl Event {
    /// Whether this event reports `status` of a request for `spec`.
    pub open spec fn reports(self, spec: SpecView, status: StatusView) -> bool {
        &&& self.type_ == (if status.phase.spec_requires_reason() || status.blocked_reason is Some {
            EventType::Warning
        } else {
            EventType::Normal
        })
        &&& self.reason@ == event_reason(status)
        &&& self.action@ == (if status.phase is Releasing || status.phase is Released {
            "Release"@
        } else {
            "Prepare"@
        })
        &&& self.note is Some <==> status.message is Some
        &&& self.note matches Some(note) ==> text::is_clipped(
            status.message->Some_0,
            NOTE_LIMIT as nat,
            note@,
        )
        &&& self.secondary matches Some(node) && {
            &&& text::opt_text(node.api_version) == Some("v1"@)
            &&& text::opt_text(node.kind) == Some("Node"@)
            &&& text::opt_text(node.name) == Some(spec.node_name)
            &&& text::opt_text(node.uid) == event_node_uid(status)
        }
    }
}

/// The event for a reconcile: there is one if and only if the status was persisted
/// and has another phase or another reason than before. Its note is as much of the
/// status message as fits.
pub fn transition_event(
    spec: &NodeMaintenanceRequestSpec,
    previous: &NodeMaintenanceRequestStatus,
    outcome: &ReconcileOutcome,
) -> (event: Option<Event>)
    ensures
        event is Some <==> is_transition(previous@, outcome.status@, outcome.persisted),
        event matches Some(event) ==> event.reports(spec@, outcome.status@),
{
    let status = &outcome.status;
    if !outcome.persisted || (previous.phase == status.phase && api::same_reason(
        previous.blocked_reason,
        status.blocked_reason,
    )) {
        return None;
    }
    let warning = status.phase.requires_reason() || status.blocked_reason.is_some();
    let reason: &str = if status.phase == MaintenancePhase::Released {
        match status.observed_desired_state {
            Some(MaintenanceDesiredState::Cancel) => "Cancelled",
            _ => "Completed",
        }
    } else {
        match status.blocked_reason {
            Some(reason) => reason.name(),
            None => status.phase.name(),
        }
    };
    let note: Option<String> = match &status.message {
        Some(message) => Some(text::clip(message, NOTE_LIMIT)),
        None => None,
    };
    let action: &str = match status.phase {
        MaintenancePhase::Releasing => "Release",
        MaintenancePhase::Released => "Release",
        _ => "Prepare",
    };
    let uid: Option<String> = match &status.released_node_uid {
        Some(uid) => Some(uid.clone()),
        None => text::copy_opt_text(&status.node_uid),
    };
    Some(
        Event {
            type_: if warning {
                EventType::Warning
            } else {
                EventType::Normal
            },
            reason: reason.to_owned(),
            action: action.to_owned(),
            note,
            secondary: Some(
                ObjectReference {
                    api_version: Some("v1".to_owned()),
                    kind: Some("Node".to_owned()),
                    name: Some(spec.node_name.clone()),
                    uid,
                },
            ),
        },
    )
}

/// A reconcile that comes to the phase and the reason that the request already had
/// is no transition, nor is one whose status was not persisted.
pub proof fn unchanged_outcomes_are_silent(before: StatusView, after: StatusView, persisted: bool)
    requires
        !persisted || before.phase == after.phase && before.blocked_reason == after.blocked_reason,
    ensures
        !is_transition(before, after, persisted),
{
}

} // verus!
