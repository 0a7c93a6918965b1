//! What becomes of each lifecycle event of a host, from its arrival to its answer.

use vstd::prelude::*;

use crate::transactional::host::{
    DrainEnd, Host, HostAnswer, HostEvent, HostState, Purpose, ReplicatorStreams, Running,
};
use crate::transactional::provider::ProviderRequest;
use crate::transactional::replica::{Error, KubericError, Replica};
use crate::types::Role;

verus! {

/// Whether two replicas hold the same data.
pub open spec fn holds_the_same<S>(one: Replica<S>, other: Replica<S>) -> bool {
    &&& one.snapshot == other.snapshot
    &&& one.confirmed_lsn == other.confirmed_lsn
}

/// Opening creates the replicator and, once the replica is accessible, answers that it is
/// open. Its streams are then there to be drained, requests are served, and what ran on
/// behalf of the replica is no longer cancelled. If the replica is not accessible that is
/// the answer, and requests are served all the same.
pub proof fn opening_takes_up_the_streams<S, E>(
    before: Running<S, E>,
    streams: ReplicatorStreams,
    error: Error,
)
    requires
        before.state is Select,
    ensures
        ({
            let creating = before.after(HostEvent::Open);
            let created = creating.after(HostEvent::Created(Ok(streams)));
            let opened = created.after(HostEvent::Accessed(Ok(())));
            let refused = created.after(HostEvent::Accessed(Err(error)));
            &&& creating.state is CreateReplicator
            &&& creating.host == before.host
            &&& creating.replica == before.replica
            &&& created.state == (HostState::<E>::Access { purpose: Purpose::Open })
            &&& opened.state == (HostState::<E>::Reply { answer: HostAnswer::Opened })
            &&& opened.host == (Host {
                copy_stream: streams.copy,
                replication_stream: streams.replication,
                serving: true,
                ..before.host
            })
            &&& opened.replica == (Replica { cancelled: false, ..before.replica })
            &&& refused.state == (HostState::<E>::Reply {
                answer: HostAnswer::OpenRefused(KubericError::Internal(error)),
            })
            &&& refused.host == opened.host
            &&& refused.replica == before.replica
        }),
{
}

/// A replicator that cannot be created is answered with the very reason, and nothing
/// changes.
pub proof fn failed_creations_are_answered_with_their_reason<S, E>(
    before: Running<S, E>,
    reason: E,
)
    requires
        before.state is Select,
    ensures
        ({
            let failed = before.after(HostEvent::Open).after(HostEvent::Created(Err(reason)));
            &&& failed.state == (HostState::<E>::Reply { answer: HostAnswer::OpenFailed(reason) })
            &&& failed.host == before.host
            &&& failed.replica == before.replica
            &&& failed.after(HostEvent::Replied).state is Select
        }),
{
}

/// Whether a role takes part in replication.
pub open spec fn takes_part(role: Role) -> bool {
    role is ActiveSecondary || role is Primary
}

/// Where a change to another role has come to once the drain of the role before, if there
/// is anything to stop, has ended with `end`. A drain is cancelled unless an idle secondary
/// is promoted, and is waited for if there is one.
pub open spec fn drain_stopped<S, E>(
    before: Running<S, E>,
    new_role: Role,
    end: Option<DrainEnd>,
) -> Running<S, E> {
    let asked = before.after(HostEvent::ChangeRole { new_role });
    if asked.state is StopDrain {
        asked.after(HostEvent::DrainStopped(end))
    } else {
        asked
    }
}

/// A change of role first stops the drain of the role before. It is left to its end only
/// when an idle secondary is promoted, and without a drain such a promotion has nothing to
/// stop. Until then neither host nor replica changes.
pub proof fn role_changes_stop_the_drain_first<S, E>(before: Running<S, E>, new_role: Role)
    requires
        before.state is Select,
        before.host.role != new_role,
    ensures
        ({
            let asked = before.after(HostEvent::ChangeRole { new_role });
            let promoted = before.host.role is IdleSecondary && takes_part(new_role);
            &&& asked.host == before.host
            &&& asked.replica == before.replica
            &&& promoted && !before.host.draining ==> asked.state == (HostState::<E>::Access {
                purpose: Purpose::ChangeRole(new_role),
            })
            &&& !promoted || before.host.draining ==> asked.state == (HostState::<E>::StopDrain {
                cancel: !promoted,
                wait: before.host.draining,
                purpose: Purpose::ChangeRole(new_role),
            })
        }),
{
}

/// A change of role is refused once the drain of the role before has panicked, or has
/// failed and the change builds on it. The answer is the error; the replica has failed, the
/// role stays and nothing is drained any more.
pub proof fn role_changes_are_refused_after_a_failed_drain<S, E>(
    before: Running<S, E>,
    new_role: Role,
    error: Error,
)
    requires
        before.state is Select,
        before.host.role != new_role,
        before.host.draining,
    ensures
        ({
            let panicked = drain_stopped(before, new_role, Some(DrainEnd::Panicked));
            let failed = drain_stopped(before, new_role, Some(DrainEnd::Failed(error)));
            let completed = drain_stopped(before, new_role, Some(DrainEnd::Completed));
            let promoted = before.host.role is IdleSecondary && takes_part(new_role);
            let rested = Host { draining: false, ..before.host };
            &&& panicked.state == (HostState::<E>::Reply {
                answer: HostAnswer::RoleRefused(KubericError::Internal(Error::RecoveryRequired)),
            })
            &&& panicked.host == rested
            &&& panicked.replica == (Replica { failed: true, ..before.replica })
            &&& promoted ==> failed.state == (HostState::<E>::Reply {
                answer: HostAnswer::RoleRefused(KubericError::Internal(error)),
            }) && failed.host == rested && failed.replica == (Replica {
                failed: true,
                ..before.replica
            })
            &&& !promoted ==> failed.state == (HostState::<E>::Access {
                purpose: Purpose::ChangeRole(new_role),
            }) && failed.host == rested && failed.replica == before.replica
            &&& completed.state == (HostState::<E>::Access {
                purpose: Purpose::ChangeRole(new_role),
            })
            &&& completed.host == rested
            &&& completed.replica == before.replica
        }),
{
}

/// With nothing to wait for, stopping the drain leads on.
pub proof fn role_changes_without_a_drain_lead_on<S, E>(before: Running<S, E>, new_role: Role)
    requires
        before.state is Select,
        before.host.role != new_role,
        !before.host.draining,
    ensures
        ({
            let stopped = drain_stopped(before, new_role, None);
            &&& stopped.state == (HostState::<E>::Access { purpose: Purpose::ChangeRole(new_role) })
            &&& stopped.host == before.host
            &&& stopped.replica == before.replica
        }),
{
}

/// Then the role is taken up by host and replica alike, which counts up the generation by
/// one: unless the replica is not accessible, or has failed and the role takes part in
/// replication. An idle secondary starts to drain the copy stream and an active one the
/// replication stream, if it is there, and that stream is used up; any other stream stays
/// as it was. The data of the replica stays as it is.
pub proof fn roles_are_taken_up_once<S, E>(
    before: Running<S, E>,
    new_role: Role,
    error: Error,
)
    requires
        before.state == (HostState::<E>::Access { purpose: Purpose::ChangeRole(new_role) }),
        before.replica.generation < u64::MAX,
    ensures
        ({
            let taken = before.after(HostEvent::Accessed(Ok(())));
            let refused = before.after(HostEvent::Accessed(Err(error)));
            let barred = before.replica.failed && takes_part(new_role);
            let copies = new_role is IdleSecondary && before.host.copy_stream;
            let replicates = new_role is ActiveSecondary && before.host.replication_stream;
            &&& refused.state == (HostState::<E>::Reply {
                answer: HostAnswer::RoleRefused(KubericError::Internal(error)),
            })
            &&& refused.host == before.host
            &&& refused.replica == (Replica { failed: true, ..before.replica })
            &&& barred ==> {
                &&& taken.state == (HostState::<E>::Reply {
                    answer: HostAnswer::RoleRefused(
                        KubericError::Internal(Error::RecoveryRequired),
                    ),
                })
                &&& taken.host == before.host
                &&& taken.replica == before.replica
            }
            &&& !barred ==> {
                &&& taken.host.role == new_role
                &&& taken.replica.role == new_role
                &&& taken.replica.generation == before.replica.generation + 1
                &&& taken.replica.failed == before.replica.failed
                &&& taken.replica.cancelled == before.replica.cancelled
                &&& holds_the_same(taken.replica, before.replica)
                &&& taken.host.serving == before.host.serving
                &&& taken.host.draining <==> copies || replicates
                &&& taken.host.copy_stream <==> before.host.copy_stream && !copies
                &&& taken.host.replication_stream <==> before.host.replication_stream && !replicates
                &&& copies ==> taken.state == (HostState::<E>::StartDrain { copy: true })
                &&& replicates ==> taken.state == (HostState::<E>::StartDrain { copy: false })
                &&& !copies && !replicates ==> taken.state == (HostState::<E>::Reply {
                    answer: HostAnswer::RoleChanged,
                })
            }
        }),
{
}

/// Once a drain is started the change of role is answered, and after any answer but that to
/// closing the next event is waited for.
pub proof fn answers_are_followed_by_the_next_event<S, E>(
    before: Running<S, E>,
    copy: bool,
    answer: HostAnswer<E>,
)
    requires
        before.state == (HostState::<E>::StartDrain { copy }) || before.state == (
        HostState::<E>::Reply { answer }),
    ensures
        before.state is StartDrain ==> before.after(HostEvent::DrainStarted).state == (
        HostState::<E>::Reply { answer: HostAnswer::RoleChanged }),
        before.state is StartDrain ==> before.after(HostEvent::DrainStarted).host == before.host
            && before.after(HostEvent::DrainStarted).replica == before.replica,
        before.state is Reply && !(answer is Closed) && !(answer is CloseRefused) ==> before.after(
            HostEvent::Replied,
        ).state is Select,
        before.state is Reply ==> before.after(HostEvent::Replied).host == before.host
            && before.after(HostEvent::Replied).replica == before.replica,
{
}

/// Closing cancels the drain and waits for its end, whatever that is. An accessible replica
/// is then removed from the partition, fenced by one generation and cancelled; the answer
/// says whether it was accessible. Then the host exits.
pub proof fn closing_removes_the_replica<S, E>(
    before: Running<S, E>,
    end: Option<DrainEnd>,
    error: Error,
)
    requires
        before.state is Select,
        before.replica.generation < u64::MAX,
    ensures
        ({
            let asked = before.after(HostEvent::Close);
            let stopped = asked.after(HostEvent::DrainStopped(end));
            let closed = stopped.after(HostEvent::Accessed(Ok(())));
            let refused = stopped.after(HostEvent::Accessed(Err(error)));
            let exiting = HostState::<E>::StopDrain {
                cancel: true,
                wait: false,
                purpose: Purpose::Exit,
            };
            &&& asked.state == (HostState::<E>::StopDrain {
                cancel: true,
                wait: before.host.draining,
                purpose: Purpose::Close,
            })
            &&& asked.host == before.host && asked.replica == before.replica
            &&& stopped.host == (Host { draining: false, ..before.host })
            &&& closed.state == (HostState::<E>::Reply { answer: HostAnswer::Closed })
            &&& closed.replica.role == Role::Removed
            &&& closed.replica.generation == before.replica.generation + 1
            &&& closed.replica.cancelled
            &&& closed.replica.failed == before.replica.failed
            &&& holds_the_same(closed.replica, before.replica)
            &&& refused.state == (HostState::<E>::Reply {
                answer: HostAnswer::CloseRefused(KubericError::Internal(error)),
            })
            &&& refused.replica == before.replica
            &&& closed.after(HostEvent::Replied).state == exiting
            &&& refused.after(HostEvent::Replied).state == exiting
        }),
{
}

/// A host that is told to abort, or that hears no more of its lifecycle, cancels the drain,
/// waits for its end and exits. An accessible replica is removed and cancelled, but not
/// fenced.
pub proof fn aborted_hosts_exit_at_once<S, E>(
    before: Running<S, E>,
    event: HostEvent<E>,
    end: Option<DrainEnd>,
    error: Error,
)
    requires
        before.state is Select,
        event is Abort || event is LifecycleEnded,
    ensures
        ({
            let asked = before.after(event);
            let stopped = asked.after(HostEvent::DrainStopped(end));
            let exited = stopped.after(HostEvent::Accessed(Ok(())));
            let lost = stopped.after(HostEvent::Accessed(Err(error)));
            &&& asked.state == (HostState::<E>::StopDrain {
                cancel: true,
                wait: before.host.draining,
                purpose: Purpose::Exit,
            })
            &&& exited.state is Exited
            &&& exited.replica == (Replica {
                role: Role::Removed,
                cancelled: true,
                ..before.replica
            })
            &&& lost.state is Exited
            &&& lost.replica == before.replica
        }),
{
}

/// A request of the replicator is served as it came, and changes neither host nor role.
/// Then the next event is waited for.
pub proof fn requests_are_served_as_they_came<S, E>(
    before: Running<S, E>,
    request: ProviderRequest,
)
    requires
        before.state is Select,
    ensures
        ({
            let serving = before.after(HostEvent::Requested(request));
            let served = serving.after(HostEvent::Served);
            &&& serving.state == (HostState::<E>::Serve { request })
            &&& serving.host == before.host && serving.replica == before.replica
            &&& served.state is Select
            &&& served.host == before.host && served.replica == before.replica
        }),
{
}

/// A host that waits takes any lifecycle event, and a request only while it serves. What it
/// has asked for is answered by what came of that, with the end of a drain if and only if
/// that was waited for. A host that has exited takes nothing.
pub proof fn hosts_expect_what_they_asked_for<E>(
    host: Host,
    state: HostState<E>,
    event: HostEvent<E>,
)
    ensures
        event is Open || event is ChangeRole || event is Close || event is Abort
            || event is LifecycleEnded ==> (host.spec_expects(state, event) <==> state is Select),
        event is Requested ==> (host.spec_expects(state, event) <==> state is Select
            && host.serving),
        event is Created ==> (host.spec_expects(state, event) <==> state is CreateReplicator),
        event matches HostEvent::DrainStopped(end) ==> (host.spec_expects(state, event) <==> (
        state matches HostState::StopDrain { wait, .. } && (wait <==> end is Some))),
        event is Accessed ==> (host.spec_expects(state, event) <==> state is Access),
        event is DrainStarted ==> (host.spec_expects(state, event) <==> state is StartDrain),
        event is Replied ==> (host.spec_expects(state, event) <==> state is Reply),
        event is Served ==> (host.spec_expects(state, event) <==> state is Serve),
{
}

/// Events count where a role is taken up and where a host is closed, and there the
/// generation must have room.
pub proof fn generations_have_room_where_they_count<S, E>(
    before: Running<S, E>,
    event: HostEvent<E>,
)
    requires
        before.host.spec_expects(before.state, event),
    ensures
        before.replica.generation < u64::MAX ==> before.spec_expects(event),
        before.replica.generation == u64::MAX && !before.spec_expects(event) ==> event is Accessed,
        before.spec_expects(event) && before.after(event).replica.generation
            == before.replica.generation ==> !before.counts(event),
{
}

} // verus!
