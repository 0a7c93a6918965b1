//! How a reconcile settles the status of a request.

use vstd::prelude::*;

use crate::maintenance::api::{
    self, Condition, ConditionView, MaintenanceBlockedReason, MaintenancePhase,
    NodeMaintenanceRequestStatus, StatusView, PREPARED_CONDITION_TYPE,
};
use crate::maintenance::clock::Timestamp;
use crate::text;

verus! {

/// The position of the first condition of the given type, or the number of
/// conditions if there is none.
pub open spec fn position_of_type(conditions: Seq<ConditionView>, type_: Seq<char>) -> int
    decreases conditions.len(),
{
    if conditions.len() == 0 {
        0
    } else if conditions.first().type_ == type_ {
        0
    } else {
        1 + position_of_type(conditions.drop_first(), type_)
    }
}

/// The conditions once `fresh` has replaced the one of its type. A condition whose
/// status stays keeps the time of its last transition.
pub open spec fn with_condition(
    conditions: Seq<ConditionView>,
    fresh: ConditionView,
) -> Seq<ConditionView> {
    let i = position_of_type(conditions, fresh.type_);
    if i < conditions.len() {
        conditions.update(
            i,
            ConditionView {
                last_transition_time: if conditions[i].status == fresh.status {
                    conditions[i].last_transition_time
                } else {
                    fresh.last_transition_time
                },
                ..fresh
            },
        )
    } else {
        conditions.push(fresh)
    }
}

/// The reason that the condition gives: that preparation is verified, what blocks
/// the request, or else its phase.
pub open spec fn condition_reason(
    phase: MaintenancePhase,
    reason: Option<MaintenanceBlockedReason>,
) -> Seq<char> {
    if phase is Prepared {
        "PrimariesMovedAndQuorumVerified"@
    } else {
        match reason {
            Some(reason) => reason.spec_name(),
            None => phase.spec_name(),
        }
    }
}

/// The condition that reports whether the node is prepared.
pub open spec fn prepared_condition(
    phase: MaintenancePhase,
    reason: Option<MaintenanceBlockedReason>,
    message: Option<Seq<char>>,
    observed_generation: Option<i64>,
    now: Seq<char>,
) -> ConditionView {
    ConditionView {
        type_: PREPARED_CONDITION_TYPE@,
        status: if phase is Prepared {
            "True"@
        } else {
            "False"@
        },
        reason: condition_reason(phase, reason),
        message: match message {
            Some(message) => message,
            None => ""@,
        },
        observed_generation,
        last_transition_time: now,
    }
}

impl StatusView {
    /// The status once a reconcile has come to `phase`. Only a prepared request
    /// carries the time of its preparation, which is the time when it first was.
    pub open spec fn finished(
        self,
        phase: MaintenancePhase,
        reason: Option<MaintenanceBlockedReason>,
        message: Option<Seq<char>>,
        now: Seq<char>,
    ) -> StatusView {
        StatusView {
            phase,
            blocked_reason: reason,
            message,
            prepared_at: if phase is Prepared {
                match self.prepared_at {
                    Some(at) => Some(at),
                    None => Some(now),
                }
            } else {
                None
            },
            conditions: with_condition(
                self.conditions,
                prepared_condition(phase, reason, message, self.observed_generation, now),
            ),
            ..self
        }
    }
}

fn find_type(conditions: &Vec<Condition>, type_: &String) -> (i: usize)
    ensures
        i == position_of_type(api::condition_views(conditions@), type_@),
        i <= conditions@.len(),
{
    let ghost views = api::condition_views(conditions@);
    let mut i: usize = 0;
    assert(views.skip(0) =~= views);
    while i < conditions.len()
        invariant
            i <= conditions@.len(),
            views == api::condition_views(conditions@),
            position_of_type(views, type_@) == i + position_of_type(views.skip(i as int), type_@),
        decreases conditions@.len() - i,
    {
        assert(views.skip(i as int).first() == conditions@[i as int]@);
        if conditions[i].type_ == *type_ {
            return i;
        }
        assert(views.skip(i as int).drop_first() =~= views.skip(i + 1));
        i += 1;
    }
    i
}

fn put_condition(conditions: &mut Vec<Condition>, fresh: Condition)
    ensures
        api::condition_views(final(conditions)@) == with_condition(
            api::condition_views(old(conditions)@),
            fresh@,
        ),
{
    let ghost before = api::condition_views(conditions@);
    let i: usize = find_type(conditions, &fresh.type_);
    if i < conditions.len() {
        let mut merged = fresh;
        if conditions[i].status == merged.status {
            merged.last_transition_time = conditions[i].last_transition_time.clone();
        }
        let ghost view = merged@;
        conditions.set(i, merged);
        assert(api::condition_views(conditions@) =~= before.update(i as int, view));
    } else {
        let ghost view = fresh@;
        conditions.push(fresh);
        assert(api::condition_views(conditions@) =~= before.push(view));
    }
}

/// Settles `status` in `phase`.
pub fn finish(
    status: NodeMaintenanceRequestStatus,
    phase: MaintenancePhase,
    reason: Option<MaintenanceBlockedReason>,
    message: Option<String>,
    now: &Timestamp,
) -> (settled: NodeMaintenanceRequestStatus)
    ensures
        settled@ == status@.finished(phase, reason, text::opt_text(message), now@),
{
    let prepared = phase == MaintenancePhase::Prepared;
    let condition_reason: &str = if prepared {
        "PrimariesMovedAndQuorumVerified"
    } else {
        match reason {
            Some(reason) => reason.name(),
            None => phase.name(),
        }
    };
    let condition_message: String = match &message {
        Some(message) => message.clone(),
        None => "".to_owned(),
    };
    let condition = Condition {
        type_: PREPARED_CONDITION_TYPE.to_owned(),
        status: if prepared {
            "True".to_owned()
        } else {
            "False".to_owned()
        },
        reason: condition_reason.to_owned(),
        message: condition_message,
        observed_generation: status.observed_generation,
        last_transition_time: now.text(),
    };
    let mut conditions = status.conditions;
    put_condition(&mut conditions, condition);
    NodeMaintenanceRequestStatus {
        phase,
        observed_generation: status.observed_generation,
        observed_desired_state: status.observed_desired_state,
        node_uid: status.node_uid,
        affected_sets: status.affected_sets,
        prepared_sets: status.prepared_sets,
        prepared_at: if prepared {
            match status.prepared_at {
                Some(at) => Some(at),
                None => Some(now.text()),
            }
        } else {
            None
        },
        released_at: status.released_at,
        released_node_uid: status.released_node_uid,
        blocked_reason: reason,
        message,
        conditions,
    }
}

} // verus!
