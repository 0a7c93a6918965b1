//! What becomes of the operations that a drain takes in.

use vstd::prelude::*;

use crate::replicator::payload;
use crate::replicator::receiver::Operation;
use crate::transactional::drain::{DrainEvent, DrainState};
use crate::transactional::host::DrainEnd;
use crate::transactional::laws;
use crate::transactional::replica::{self, Error, Limits, Replica, Snapshot};
use crate::types::{Lsn, Role};

verus! {

/// Whether two replicas differ in what they show and in whether they failed at most.
pub open spec fn stands_as<S>(one: Replica<S>, other: Replica<S>) -> bool {
    &&& one.generation == other.generation
    &&& one.role == other.role
    &&& one.cancelled == other.cancelled
}

/// A replica starts unfailed from the snapshot that was recovered, with no role and nothing
/// fenced.
pub proof fn replicas_start_from_what_was_recovered<S>(snapshot: Snapshot<S>, confirmed: Lsn)
    ensures
        ({
            let replica = Replica::starting(snapshot, confirmed);
            &&& replica.snapshot == snapshot
            &&& replica.confirmed_lsn == confirmed
            &&& !replica.failed
            &&& !replica.cancelled
            &&& replica.generation == 0
            &&& replica.role == Role::Unknown
        }),
{
}

/// An encoded value may exceed its limit by 32 bytes and no more.
pub proof fn limits_leave_room_for_the_encoding(size: int, max_bytes: usize)
    ensures
        replica::keeps_to(size, max_bytes) <==> size - 32 <= max_bytes,
{
}

/// A new operation goes to the log as it came. A drain that is not failed and has not
/// applied it yet applies the very payload that arrived; what it then appends is the LSN of
/// the operation with that payload, for the snapshot that was built from it. Once that is
/// appended the replica shows the snapshot, and the operation is acknowledged; nothing of
/// it is left when the next one is received.
pub proof fn operations_are_appended_as_they_arrived<S>(
    before: Replica<S>,
    limits: Limits,
    contents: Vec<u8>,
    operation: Operation,
    snapshot: Snapshot<S>,
    building: DrainState<S>,
    appending: DrainState<S>,
    acknowledging: DrainState<S>,
    receiving: DrainState<S>,
)
    requires
        !before.failed,
        operation.lsn > before.snapshot.applied_lsn,
        building.follows(
            before,
            false,
            limits,
            DrainState::Receive { contents },
            DrainEvent::Arrived(operation),
        ),
        appending.follows(before, false, limits, building, DrainEvent::Built(Ok(snapshot))),
        acknowledging.follows(before, false, limits, appending, DrainEvent::Appended(Ok(()))),
        receiving.follows(before, false, limits, acknowledging, DrainEvent::Acknowledged),
    ensures
        ({
            let data = payload::contents(operation.data);
            let built = before.after_drain(building, DrainEvent::Built(Ok(snapshot)));
            let appended = built.after_drain(appending, DrainEvent::Appended(Ok(())));
            &&& building matches DrainState::Build { lsn, payload } && lsn == operation.lsn
                && payload@ == data
            &&& appending matches DrainState::Append { lsn, payload, snapshot: shown } && lsn
                == operation.lsn && payload@ == data && shown == snapshot
            &&& built == before
            &&& acknowledging is Acknowledge
            &&& appended.snapshot == snapshot
            &&& appended.confirmed_lsn == before.confirmed_lsn
            &&& appended.failed == before.failed
            &&& stands_as(appended, before)
            &&& receiving matches DrainState::Receive { contents: left } && left@.len() == 0
        }),
{
}

/// An operation that is already applied changes nothing. It is decoded from the very
/// payload that arrived, and acknowledged if and only if a result with its transaction
/// number, its request and the digest of its command is retained. Otherwise the drain ends
/// as with a duplicate.
pub proof fn repeated_operations_are_known_by_their_result<S>(
    before: Replica<S>,
    limits: Limits,
    contents: Vec<u8>,
    operation: Operation,
    decoding: DrainState<S>,
    transaction: crate::transactional::drain::DecodedTransaction,
    next: DrainState<S>,
)
    requires
        !before.failed,
        operation.lsn <= before.snapshot.applied_lsn,
        payload::contents(operation.data).len() <= limits.max_transaction_bytes + 32,
        decoding.follows(
            before,
            false,
            limits,
            DrainState::Receive { contents },
            DrainEvent::Arrived(operation),
        ),
        next.follows(before, false, limits, decoding, DrainEvent::Decoded(Ok(transaction))),
    ensures
        decoding matches DrainState::Decode { payload, max_bytes } && payload@ == payload::contents(
            operation.data,
        ) && max_bytes == limits.max_transaction_bytes,
        before.after_drain(decoding, DrainEvent::Decoded(Ok(transaction))) == before,
        next is Acknowledge <==> exists|i: int|
            0 <= i < before.snapshot.results@.len() && {
                let result = #[trigger] before.snapshot.results@[i];
                &&& result.identity.transaction == transaction.identity.transaction
                &&& result.identity.request@ == transaction.identity.request@
                &&& result.digest@ == replica::sha256(transaction.command@)
            },
        !(next is Acknowledge) ==> next == (DrainState::<S>::Finished {
            outcome: Err(Error::DuplicateRequest),
        }),
{
    let retained = before.snapshot.retains(
        transaction.identity,
        replica::sha256(transaction.command@),
    );
    if retained {
        let i = choose|i: int|
            0 <= i < before.snapshot.results@.len() && (
            #[trigger] before.snapshot.results@[i]).answers(
                transaction.identity,
                replica::sha256(transaction.command@),
            );
        let result = before.snapshot.results@[i];
        assert(result.identity.transaction == transaction.identity.transaction);
    }
    if exists|i: int|
        0 <= i < before.snapshot.results@.len() && {
            let result = #[trigger] before.snapshot.results@[i];
            &&& result.identity.transaction == transaction.identity.transaction
            &&& result.identity.request@ == transaction.identity.request@
            &&& result.digest@ == replica::sha256(transaction.command@)
        } {
        let i = choose|i: int|
            0 <= i < before.snapshot.results@.len() && {
                let result = #[trigger] before.snapshot.results@[i];
                &&& result.identity.transaction == transaction.identity.transaction
                &&& result.identity.request@ == transaction.identity.request@
                &&& result.digest@ == replica::sha256(transaction.command@)
            };
        assert(before.snapshot.results@[i].answers(
            transaction.identity,
            replica::sha256(transaction.command@),
        ));
    }
}

/// An operation that a drain cannot take in at all ends it, with the reason, and is not
/// acknowledged: any on a failed replica, one that is already applied and too large, and
/// one of a copy that becomes too large.
pub proof fn operations_that_cannot_be_taken_in_end_the_drain<S>(
    before: Replica<S>,
    copy: bool,
    limits: Limits,
    contents: Vec<u8>,
    operation: Operation,
    next: DrainState<S>,
)
    requires
        next.follows(
            before,
            copy,
            limits,
            DrainState::Receive { contents },
            DrainEvent::Arrived(operation),
        ),
    ensures
        ({
            let size = payload::contents(operation.data).len();
            &&& !copy && before.failed ==> next == (DrainState::<S>::Finished {
                outcome: Err(Error::RecoveryRequired),
            })
            &&& !copy && !before.failed && operation.lsn <= before.snapshot.applied_lsn && size
                > limits.max_transaction_bytes + 32 ==> next == (DrainState::<S>::Finished {
                outcome: Err(Error::ResourceExhausted),
            })
            &&& copy && contents@.len() + size > limits.max_snapshot_bytes + 32 ==> next == (
            DrainState::<S>::Finished { outcome: Err(Error::ResourceExhausted) })
            &&& copy && contents@.len() + size <= limits.max_snapshot_bytes + 32 ==> (
            next matches DrainState::Acknowledge { contents: grown } && grown@ == contents@
                + payload::contents(operation.data))
            &&& before.after_drain(
                DrainState::Receive { contents },
                DrainEvent::Arrived(operation),
            ) == before
        }),
{
}

/// What fails on the way ends the drain with its error and shows nothing new.
pub proof fn failures_end_the_drain<S>(
    before: Replica<S>,
    copy: bool,
    limits: Limits,
    state: DrainState<S>,
    event: DrainEvent<S>,
    next: DrainState<S>,
    error: Error,
)
    requires
        state.spec_expects(event),
        next.follows(before, copy, limits, state, event),
    ensures
        event is Cancelled ==> next == (DrainState::<S>::Finished {
            outcome: Err(Error::RecoveryRequired),
        }),
        event == DrainEvent::<S>::Inaccessible(error) || event == DrainEvent::<S>::Decoded(
            Err(error),
        ) || event == DrainEvent::<S>::Built(Err(error)) || event == DrainEvent::<S>::Appended(
            Err(error),
        ) || event == DrainEvent::<S>::Checked(Err(error)) || event == DrainEvent::<S>::Installed(
            Err(error),
        ) || event == DrainEvent::<S>::CompletionAcknowledged(Err(error)) ==> next == (
        DrainState::<S>::Finished { outcome: Err(error) }) && before.after_drain(state, event)
            == before,
        event is Cancelled ==> before.after_drain(state, event) == before,
{
}

/// Nothing that happens to a drain changes the role or the generation of the replica, or
/// cancels anything.
pub proof fn drains_leave_the_role_alone<S>(
    before: Replica<S>,
    state: DrainState<S>,
    event: DrainEvent<S>,
)
    ensures
        stands_as(before.after_drain(state, event), before),
{
}

/// A stream of new operations ends well; one of a copy ends well only with a boundary, and
/// is then checked as a whole at the LSN of that boundary.
pub proof fn streams_end_at_their_boundary<S>(
    before: Replica<S>,
    copy: bool,
    limits: Limits,
    contents: Vec<u8>,
    copy_lsn: Option<Lsn>,
    next: DrainState<S>,
)
    requires
        next.follows(
            before,
            copy,
            limits,
            DrainState::Receive { contents },
            DrainEvent::Ended { copy_lsn },
        ),
    ensures
        before.after_drain(DrainState::Receive { contents }, DrainEvent::Ended { copy_lsn })
            == before,
        !copy ==> next == (DrainState::<S>::Finished { outcome: Ok(()) }),
        copy && copy_lsn is None ==> (next matches DrainState::Finished {
            outcome: Err(Error::Invalid(reason)),
        } && reason@ == "copy boundary missing"@),
        copy && copy_lsn is Some ==> next == (DrainState::<S>::Check {
            lsn: copy_lsn->Some_0,
            contents,
        }),
{
}

/// A copy is installed as it arrived. Where the checked snapshot stands at the boundary,
/// the very contents that arrived are installed at that LSN, the replica counts as failed
/// meanwhile, and afterwards it shows the snapshot, confirmed up to the boundary, and the
/// completion is acknowledged. A snapshot that stands elsewhere is not installed.
pub proof fn copies_are_installed_as_they_arrived<S>(
    before: Replica<S>,
    limits: Limits,
    lsn: Lsn,
    contents: Vec<u8>,
    snapshot: Snapshot<S>,
    installing: DrainState<S>,
    completing: DrainState<S>,
    finished: DrainState<S>,
)
    requires
        installing.follows(
            before,
            true,
            limits,
            DrainState::Check { lsn, contents },
            DrainEvent::Checked(Ok(snapshot)),
        ),
        snapshot.applied_lsn == lsn ==> completing.follows(
            before,
            true,
            limits,
            installing,
            DrainEvent::Installed(Ok(())),
        ) && finished.follows(
            before,
            true,
            limits,
            completing,
            DrainEvent::CompletionAcknowledged(Ok(())),
        ),
    ensures
        ({
            let checked = before.after_drain(
                DrainState::Check { lsn, contents },
                DrainEvent::Checked(Ok(snapshot)),
            );
            let installed = checked.after_drain(installing, DrainEvent::Installed(Ok(())));
            &&& snapshot.applied_lsn != lsn ==> (installing matches DrainState::Finished {
                outcome: Err(Error::Invalid(reason)),
            } && reason@ == "copy LSN mismatch"@) && checked == before
            &&& snapshot.applied_lsn == lsn ==> {
                &&& installing matches DrainState::Install {
                    lsn: at,
                    contents: whole,
                    snapshot: shown,
                } && at == lsn && whole@ == contents@ && shown == snapshot
                &&& checked.failed && checked.snapshot == before.snapshot
                &&& checked.confirmed_lsn == before.confirmed_lsn
                &&& installed.snapshot == snapshot
                &&& installed.confirmed_lsn == lsn
                &&& !installed.failed
                &&& completing is AcknowledgeCompletion
                &&& finished == (DrainState::<S>::Finished { outcome: Ok(()) })
            }
        }),
{
}

/// Each state of a drain expects what came of it, and a finished one expects nothing.
pub proof fn drains_expect_what_they_asked_for<S>(
    state: DrainState<S>,
    event: DrainEvent<S>,
)
    ensures
        event is Cancelled || event is Arrived || event is Inaccessible || event is Ended ==> (
        state.spec_expects(event) <==> state is Receive),
        event is Decoded ==> (state.spec_expects(event) <==> state is Decode),
        event is Built ==> (state.spec_expects(event) <==> state is Build),
        event is Appended ==> (state.spec_expects(event) <==> state is Append),
        event is Acknowledged ==> (state.spec_expects(event) <==> state is Acknowledge),
        event is Checked ==> (state.spec_expects(event) <==> state is Check),
        event is Installed ==> (state.spec_expects(event) <==> state is Install),
        event is CompletionAcknowledged ==> (state.spec_expects(event)
            <==> state is AcknowledgeCompletion),
{
}

/// A drain that has ended marks the replica as failed if and only if it failed of itself
/// and was not cancelled; it changes nothing else.
pub proof fn only_failures_of_their_own_fail_the_replica<S>(
    before: Replica<S>,
    end: DrainEnd,
    cancelled: bool,
)
    ensures
        ({
            let after = before.after_drain_end(end, cancelled);
            &&& after.failed <==> before.failed || (end is Failed && !cancelled)
            &&& after.snapshot == before.snapshot
            &&& after.confirmed_lsn == before.confirmed_lsn
            &&& stands_as(after, before)
        }),
{
}

/// A copy that arrives over any number of operations, each within what room is left, is
/// checked as the bytes of all of them in order.
pub proof fn copies_are_checked_as_all_that_arrived<S>(
    before: Replica<S>,
    limits: Limits,
    operations: Seq<Operation>,
    waiting: Seq<DrainState<S>>,
    reacting: Seq<DrainState<S>>,
    lsn: Lsn,
    checking: DrainState<S>,
)
    requires
        laws::is_copy_run(before, limits, operations, waiting, reacting),
        laws::joined(operations).len() <= limits.max_snapshot_bytes + 32,
        checking.follows(
            before,
            true,
            limits,
            waiting.last(),
            DrainEvent::Ended { copy_lsn: Some(lsn) },
        ),
    ensures
        checking matches DrainState::Check { lsn: at, contents } && at == lsn && contents@
            == laws::joined(operations),
{
    laws::copies_arrive_complete(before, limits, operations, waiting, reacting);
}

} // verus!
