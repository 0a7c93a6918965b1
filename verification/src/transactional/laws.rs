//! What holds of a transactional replica across calls.

use vstd::prelude::*;

use crate::replicator::payload;
use crate::replicator::receiver::Operation;
use crate::transactional::drain::{DrainEvent, DrainState};
use crate::transactional::host::{self, DrainEnd, Host, HostAnswer, HostEvent, HostState, Purpose, Running};
use crate::transactional::provider::{self, ProviderEvent, ProviderRequest, ProviderState, CHUNK_BYTES};
use crate::transactional::replica::{self, Error, KubericError, Limits, Replica, Snapshot};
use crate::types::{Lsn, Role};

verus! {

/// Outside a copy an operation is acknowledged only once its effect is in the log
/// and in the snapshot, or if it was applied before and its result is retained.
pub proof fn operations_are_persisted_before_their_acknowledgement<S>(
    before: Replica<S>,
    limits: Limits,
    state: DrainState<S>,
    event: DrainEvent<S>,
    next: DrainState<S>,
)
    requires
        state.spec_expects(event),
        next.follows(before, false, limits, state, event),
        next is Acknowledge,
    ensures
        ({
            ||| {
                &&& state is Append
                &&& event matches DrainEvent::Appended(Ok(_))
                &&& before.after_drain(state, event).snapshot == state->Append_snapshot
            }
            ||| {
                &&& state is Decode
                &&& event matches DrainEvent::Decoded(Ok(transaction))
                    && before.snapshot.retains(
                    transaction.identity,
                    replica::sha256(transaction.command@),
                )
                &&& before.after_drain(state, event) == before
            }
        }),
{
}

/// What a replica shows changes only when an operation has been appended to the log
/// or a copy has been installed.
pub proof fn unpersisted_operations_never_show<S>(
    before: Replica<S>,
    state: DrainState<S>,
    event: DrainEvent<S>,
)
    requires
        !(event matches DrainEvent::Appended(Ok(_))),
        !(event matches DrainEvent::Installed(Ok(_))),
    ensures
        before.after_drain(state, event).snapshot == before.snapshot,
        before.after_drain(state, event).confirmed_lsn == before.confirmed_lsn,
        before.failed ==> before.after_drain(state, event).failed,
{
}

/// A copy is installed only where the decoded snapshot stands at the boundary of
/// the stream. From then on the replica counts as failed until the installation has
/// succeeded; after that it shows the snapshot, confirmed up to the boundary.
pub proof fn copies_are_installed_whole_or_fail<S>(
    before: Replica<S>,
    limits: Limits,
    state: DrainState<S>,
    event: DrainEvent<S>,
    next: DrainState<S>,
    error: Error,
)
    requires
        state.spec_expects(event),
        next.follows(before, true, limits, state, event),
        next is Install,
    ensures
        ({
            let installing = before.after_drain(state, event);
            let snapshot = next->Install_snapshot;
            let lsn = next->Install_lsn;
            let failed = installing.after_drain(next, DrainEvent::Installed(Err(error)));
            let installed = installing.after_drain(next, DrainEvent::Installed(Ok(())));
            &&& snapshot.applied_lsn == lsn
            &&& installing == Replica { failed: true, ..before }
            &&& failed == installing
            &&& installed.snapshot == snapshot
            &&& installed.confirmed_lsn == lsn
            &&& !installed.failed
        }),
{
}

/// A failed replica takes in no operation.
pub proof fn failed_replicas_take_in_nothing<S>(
    before: Replica<S>,
    limits: Limits,
    contents: Vec<u8>,
    operation: Operation,
    next: DrainState<S>,
)
    requires
        before.failed,
        next.follows(
            before,
            false,
            limits,
            DrainState::Receive { contents },
            DrainEvent::Arrived(operation),
        ),
    ensures
        next == (DrainState::<S>::Finished { outcome: Err(Error::RecoveryRequired) }),
{
}

/// The contents of all operations, put together.
pub open spec fn joined(operations: Seq<Operation>) -> Seq<u8>
    decreases operations.len(),
{
    if operations.len() == 0 {
        Seq::empty()
    } else {
        joined(operations.drop_last()) + payload::contents(operations.last().data)
    }
}

proof fn lemma_joined_prefix(operations: Seq<Operation>, lsn: Lsn, contents: Seq<u8>, n: int)
    requires
        provider::carries(operations, lsn, contents),
        0 <= n <= operations.len(),
    ensures
        joined(operations.take(n)) == contents.take(
            if n * CHUNK_BYTES <= contents.len() {
                n * CHUNK_BYTES
            } else {
                contents.len() as int
            },
        ),
    decreases n,
{
    let prefix = operations.take(n);
    if n == 0 {
        assert(contents.take(0) =~= Seq::<u8>::empty());
    } else {
        lemma_joined_prefix(operations, lsn, contents, n - 1);
        assert(prefix.drop_last() =~= operations.take(n - 1));
        assert(prefix.last() == operations[n - 1]);
        assert(operations[n - 1].is(lsn, provider::chunk(contents, n - 1)));
        let end = if n * CHUNK_BYTES <= contents.len() {
            n * CHUNK_BYTES
        } else {
            contents.len() as int
        };
        assert(contents.take(end) =~= contents.take((n - 1) * CHUNK_BYTES) + provider::chunk(
            contents,
            n - 1,
        ));
    }
}

/// The operations of a copy carry its contents in bounded, non-empty chunks which
/// give the contents back when they are put together.
pub proof fn chunks_give_the_contents_back(
    operations: Seq<Operation>,
    lsn: Lsn,
    contents: Seq<u8>,
)
    requires
        provider::carries(operations, lsn, contents),
    ensures
        joined(operations) == contents,
        forall|i: int|
            0 <= i < operations.len() ==> {
                let size = payload::contents((#[trigger] operations[i]).data).len();
                0 < size <= CHUNK_BYTES && operations[i].lsn == lsn
            },
{
    lemma_joined_prefix(operations, lsn, contents, operations.len() as int);
    assert(operations.take(operations.len() as int) =~= operations);
    assert(contents.take(contents.len() as int) =~= contents);
    assert forall|i: int| 0 <= i < operations.len() implies {
        let size = payload::contents((#[trigger] operations[i]).data).len();
        0 < size <= CHUNK_BYTES && operations[i].lsn == lsn
    } by {
        assert(operations[i].is(lsn, provider::chunk(contents, i)));
    }
}

/// Whether a drain of a copy goes through `waiting` while `operations` arrive one by
/// one: from each waiting state through the state in `reacting` to the next.
pub open spec fn is_copy_run<S>(
    before: Replica<S>,
    limits: Limits,
    operations: Seq<Operation>,
    waiting: Seq<DrainState<S>>,
    reacting: Seq<DrainState<S>>,
) -> bool {
    &&& waiting.len() == operations.len() + 1
    &&& reacting.len() == operations.len()
    &&& waiting[0] matches DrainState::Receive { contents } && contents@.len() == 0
    &&& forall|i: int|
        0 <= i < operations.len() ==> (#[trigger] reacting[i]).follows(
            before,
            true,
            limits,
            waiting[i],
            DrainEvent::Arrived(operations[i]),
        ) && waiting[i + 1].follows(
            before,
            true,
            limits,
            reacting[i],
            DrainEvent::Acknowledged,
        )
}

/// A drain takes in every operation of a copy that is not too large, and ends up
/// with the contents of all of them put together.
pub proof fn copies_arrive_complete<S>(
    before: Replica<S>,
    limits: Limits,
    operations: Seq<Operation>,
    waiting: Seq<DrainState<S>>,
    reacting: Seq<DrainState<S>>,
)
    requires
        is_copy_run(before, limits, operations, waiting, reacting),
        replica::keeps_to(joined(operations).len() as int, limits.max_snapshot_bytes),
    ensures
        waiting.last() matches DrainState::Receive { contents } && contents@ == joined(operations),
        forall|i: int| 0 <= i < reacting.len() ==> (#[trigger] reacting[i]) is Acknowledge,
    decreases operations.len(),
{
    if operations.len() > 0 {
        let n = operations.len() as int;
        let rest = operations.drop_last();
        assert forall|i: int| 0 <= i < rest.len() implies (#[trigger] reacting.drop_last()[i]).follows(
            before,
            true,
            limits,
            waiting.drop_last()[i],
            DrainEvent::Arrived(rest[i]),
        ) && waiting.drop_last()[i + 1].follows(
            before,
            true,
            limits,
            reacting.drop_last()[i],
            DrainEvent::Acknowledged,
        ) by {
            assert(reacting[i] == reacting.drop_last()[i]);
        }
        copies_arrive_complete(
            before,
            limits,
            rest,
            waiting.drop_last(),
            reacting.drop_last(),
        );
        assert(waiting.drop_last().last() == waiting[n - 1]);
        assert(reacting[n - 1].follows(
            before,
            true,
            limits,
            waiting[n - 1],
            DrainEvent::Arrived(operations[n - 1]),
        ));
        assert forall|i: int| 0 <= i < reacting.len() implies (
        #[trigger] reacting[i]) is Acknowledge by {
            if i < n - 1 {
                assert(reacting.drop_last()[i] is Acknowledge);
            }
        }
    }
}

/// What one replica sends as a copy, another one with the same limits takes in and puts
/// together again: the drain ends up with the encoded contents.
pub proof fn copies_arrive_as_they_were_sent<S>(
    sender: Replica<S>,
    receiver: Replica<S>,
    limits: Limits,
    lsn: Lsn,
    contents: Vec<u8>,
    sending: ProviderState<S>,
    waiting: Seq<DrainState<S>>,
    reacting: Seq<DrainState<S>>,
)
    requires
        sending.follows(
            sender,
            limits,
            ProviderState::EncodeCopy { up_to_lsn: lsn, max_bytes: limits.max_snapshot_bytes },
            ProviderEvent::Encoded(Ok(contents)),
        ),
        sending is SendCopy,
        is_copy_run(receiver, limits, sending->operations@, waiting, reacting),
    ensures
        waiting.last() matches DrainState::Receive { contents: arrived } && arrived@ == contents@,
{
    chunks_give_the_contents_back(sending->operations@, lsn, contents@);
    copies_arrive_complete(receiver, limits, sending->operations@, waiting, reacting);
}

/// A copy is encoded within the limit for snapshots, and one that exceeds it all the
/// same is never sent.
pub proof fn sent_copies_keep_to_the_limit<S>(
    before: Replica<S>,
    limits: Limits,
    request: ProviderRequest,
    state: ProviderState<S>,
    event: ProviderEvent<S>,
    next: ProviderState<S>,
)
    requires
        state.spec_expects(event),
        next.follows(before, limits, state, event),
        state matches ProviderState::EncodeCopy { max_bytes, .. } ==> max_bytes
            == limits.max_snapshot_bytes,
    ensures
        before.answering(limits, request) matches ProviderState::EncodeCopy { max_bytes, .. }
            ==> max_bytes == limits.max_snapshot_bytes,
        next matches ProviderState::EncodeCopy { max_bytes, .. } ==> max_bytes
            == limits.max_snapshot_bytes,
        next matches ProviderState::SendCopy { operations } ==> replica::keeps_to(
            joined(operations@).len() as int,
            limits.max_snapshot_bytes,
        ),
{
    if next is SendCopy {
        chunks_give_the_contents_back(
            next->operations@,
            state->EncodeCopy_up_to_lsn,
            event->Encoded_0->Ok_0@,
        );
    }
}

/// An operation that is already applied is decoded only within the limit for
/// transactions; one that exceeds it ends the drain and is never acknowledged.
pub proof fn repeated_operations_keep_to_the_limit<S>(
    before: Replica<S>,
    limits: Limits,
    contents: Vec<u8>,
    operation: Operation,
    next: DrainState<S>,
)
    requires
        operation.lsn <= before.snapshot.applied_lsn,
        next.follows(
            before,
            false,
            limits,
            DrainState::Receive { contents },
            DrainEvent::Arrived(operation),
        ),
    ensures
        ({
            let data = payload::contents(operation.data);
            &&& next matches DrainState::Decode { payload, max_bytes } ==> payload@ == data
                && max_bytes == limits.max_transaction_bytes && replica::keeps_to(
                data.len() as int,
                max_bytes,
            )
            &&& !(next is Decode) ==> next matches DrainState::Finished { outcome: Err(_) }
        }),
{
}

/// An epoch update fences what was begun before it, and rolls the replica back if
/// and only if more is applied than the previous epoch has.
pub proof fn epoch_updates_fence_and_roll_back<S>(before: Replica<S>, limits: Limits, lsn: Lsn)
    requires
        before.generation < u64::MAX,
    ensures
        ({
            let request = ProviderRequest::UpdateEpoch { previous_epoch_last_lsn: lsn };
            let asked = before.asked(request);
            &&& asked.generation > before.generation
            &&& asked == Replica { generation: asked.generation, ..before }
            &&& before.answering(limits, request) is Recover <==> lsn < before.snapshot.applied_lsn
            &&& before.answering(limits, request) is Answer <==> lsn >= before.snapshot.applied_lsn
        }),
{
}

/// After a roll-back the replica shows the recovered snapshot and has nothing
/// confirmed beyond the boundary. A roll-back that fails shows nothing new and
/// leaves the replica failed.
pub proof fn rollbacks_take_confirmations_back<S>(
    before: Replica<S>,
    lsn: Lsn,
    snapshot: Snapshot<S>,
    error: Error,
)
    ensures
        ({
            let state = ProviderState::Rollback { lsn, snapshot };
            let done = before.after_provider(state, ProviderEvent::RolledBack(Ok(())));
            let failed = before.after_provider(state, ProviderEvent::RolledBack(Err(error)));
            let unrecovered = before.after_provider(
                ProviderState::Recover { lsn },
                ProviderEvent::Recovered(Err(error)),
            );
            &&& done.snapshot == snapshot
            &&& done.confirmed_lsn <= lsn
            &&& done.confirmed_lsn <= before.confirmed_lsn
            &&& done.failed == before.failed
            &&& failed == Replica { failed: true, ..before }
            &&& unrecovered == Replica { failed: true, ..before }
        }),
{
}

/// A copy is encoded only once everything up to the wanted LSN is applied.
pub proof fn copies_wait_for_what_they_contain<S>(
    before: Replica<S>,
    limits: Limits,
    state: ProviderState<S>,
    event: ProviderEvent<S>,
    next: ProviderState<S>,
)
    requires
        state.spec_expects(event),
        next.follows(before, limits, state, event),
        next is EncodeCopy,
    ensures
        next->EncodeCopy_up_to_lsn <= before.snapshot.applied_lsn,
{
}

/// No event makes a failed replica a primary or an active secondary.
pub proof fn failed_replicas_are_never_promoted<S, E>(before: Running<S, E>, event: HostEvent<E>)
    requires
        before.host.spec_expects(before.state, event),
        before.replica.failed,
    ensures
        before.after(event).replica.failed,
        before.after(event).replica.role == before.replica.role || !host::is_active(
            before.after(event).replica.role,
        ),
{
}

/// A change to the role that was taken up last changes nothing.
pub proof fn repeated_role_changes_do_nothing<S, E>(before: Running<S, E>)
    requires
        before.state is Select,
    ensures
        ({
            let after = before.after(HostEvent::ChangeRole { new_role: before.host.role });
            &&& after.host == before.host
            &&& after.replica == before.replica
            &&& after.state == (HostState::<E>::Reply { answer: HostAnswer::RoleChanged })
        }),
{
}

/// An idle secondary that is promoted while its copy is being drained waits for the
/// end of the copy without cancelling it. If the copy failed, the promotion is
/// refused with its error, and so is every later one.
pub proof fn promotion_needs_a_completed_copy<S, E>(
    before: Running<S, E>,
    new_role: Role,
    error: Error,
)
    requires
        before.state is Select,
        before.host.role is IdleSecondary,
        before.host.draining,
        host::is_active(new_role),
    ensures
        ({
            let change = HostEvent::ChangeRole { new_role };
            let waiting = before.after(change);
            let refused = waiting.after(
                HostEvent::DrainStopped(Some(DrainEnd::Failed(error))),
            );
            let retried = refused.after(HostEvent::Replied).after(change).after(
                HostEvent::Accessed(Ok(())),
            );
            &&& waiting.state == (HostState::<E>::StopDrain {
                cancel: false,
                wait: true,
                purpose: Purpose::ChangeRole(new_role),
            })
            &&& refused.state == (HostState::<E>::Reply {
                answer: HostAnswer::RoleRefused(KubericError::Internal(error)),
            })
            &&& refused.replica == Replica { failed: true, ..before.replica }
            &&& refused.host.role is IdleSecondary
            &&& retried.state == (HostState::<E>::Reply {
                answer: HostAnswer::RoleRefused(KubericError::Internal(Error::RecoveryRequired)),
            })
            &&& retried.replica == refused.replica
        }),
{
}

/// Any other change of role cancels the drain of the role before.
pub proof fn other_role_changes_cancel_the_drain<S, E>(before: Running<S, E>, new_role: Role)
    requires
        before.state is Select,
        before.host.role != new_role,
        !before.host.promotes(new_role),
    ensures
        before.after(HostEvent::ChangeRole { new_role }).state == (HostState::<E>::StopDrain {
            cancel: true,
            wait: before.host.draining,
            purpose: Purpose::ChangeRole(new_role),
        }),
{
}

/// A role is taken up if and only if that fences what was begun before, and the
/// host and its replica then have that role.
pub proof fn role_changes_fence<S, E>(before: Running<S, E>, event: HostEvent<E>)
    requires
        before.spec_expects(event),
    ensures
        ({
            let after = before.after(event);
            &&& after.replica.generation == before.replica.generation + (if before.counts(event) {
                1int
            } else {
                0
            })
            &&& after.host.role != before.host.role ==> after.replica.generation
                > before.replica.generation && after.replica.role == after.host.role
            &&& after.state == (HostState::<E>::Reply { answer: HostAnswer::Closed })
                ==> after.replica.generation > before.replica.generation
        }),
{
}

/// Each stream of a replicator is drained at most once.
pub proof fn streams_are_used_once<S, E>(before: Running<S, E>, event: HostEvent<E>)
    requires
        before.host.spec_expects(before.state, event),
        !(before.state is StartDrain),
    ensures
        ({
            let after = before.after(event);
            &&& after.state == (HostState::<E>::StartDrain { copy: true }) ==> before.host.copy_stream
                && !after.host.copy_stream && after.host.role is IdleSecondary
            &&& after.state == (HostState::<E>::StartDrain { copy: false })
                ==> before.host.replication_stream && !after.host.replication_stream
                && after.host.role is ActiveSecondary
            &&& after.host.copy_stream ==> before.host.copy_stream || event is Created
            &&& after.host.replication_stream ==> before.host.replication_stream || event is Created
        }),
{
}

/// A host that exits has stopped its drain and, if its replica was accessible, removed
/// it from the partition.
pub proof fn exits_are_clean<S, E>(
    before: Running<S, E>,
    end: Option<DrainEnd>,
    access: Result<(), Error>,
)
    requires
        before.state matches HostState::StopDrain { purpose: Purpose::Exit, .. },
    ensures
        ({
            let after = before.after(HostEvent::DrainStopped(end)).after(
                HostEvent::Accessed(access),
            );
            &&& after.state is Exited
            &&& !after.host.draining
            &&& access is Ok ==> after.replica.role is Removed && after.replica.cancelled
            &&& access is Err ==> after.replica == before.replica
        }),
{
}

/// Closing always ends in the exit of the host, whether the replica was accessible or
/// not.
pub proof fn closing_leads_to_the_exit<S, E>(before: Running<S, E>, access: Result<(), Error>)
    requires
        before.state == (HostState::<E>::Access { purpose: Purpose::Close }),
    ensures
        ({
            let answered = before.after(HostEvent::Accessed(access));
            &&& answered.state is Reply
            &&& answered.after(HostEvent::Replied).state == (HostState::<E>::StopDrain {
                cancel: true,
                wait: before.host.draining,
                purpose: Purpose::Exit,
            })
        }),
{
}

} // verus!
