//! What the replicator is answered, in terms of what it asked and what the replica has.

use vstd::prelude::*;

use crate::replicator::payload;
use crate::transactional::drain_laws;
use crate::transactional::laws;
use crate::transactional::provider::{
    self, ProviderAnswer, ProviderEvent, ProviderRequest, ProviderState,
};
use crate::transactional::replica::{Error, KubericError, Limits, Replica, Snapshot};
use crate::types::Lsn;

verus! {

/// What can be answered without a copy or an epoch change is answered at once and changes
/// nothing: the last committed LSN is the one up to which operations are applied, a copy
/// context is empty, and data loss changes no state.
pub proof fn plain_requests_are_answered_from_the_replica<S>(before: Replica<S>, limits: Limits)
    ensures
        before.answering(limits, ProviderRequest::GetLastCommittedLsn) == (
        ProviderState::<S>::Answer {
            answer: ProviderAnswer::LastCommittedLsn(before.snapshot.applied_lsn),
        }),
        before.answering(limits, ProviderRequest::GetCopyContext) == (ProviderState::<S>::Answer {
            answer: ProviderAnswer::EmptyContext,
        }),
        before.answering(limits, ProviderRequest::OnDataLoss) == (ProviderState::<S>::Answer {
            answer: ProviderAnswer::DataLoss(false),
        }),
        before.asked(ProviderRequest::GetLastCommittedLsn) == before,
        before.asked(ProviderRequest::GetCopyContext) == before,
        before.asked(ProviderRequest::OnDataLoss) == before,
{
}

/// Whether a request for a copy up to `lsn` goes through `states`, while the replica
/// changes from one of `replicas` to the next.
pub open spec fn is_copy_request<S>(
    limits: Limits,
    lsn: Lsn,
    replicas: Seq<Replica<S>>,
    states: Seq<ProviderState<S>>,
    events: Seq<ProviderEvent<S>>,
) -> bool {
    &&& states.len() == events.len() + 1
    &&& replicas.len() == states.len()
    &&& states[0] == replicas[0].answering(
        limits,
        ProviderRequest::GetCopyState { up_to_lsn: lsn },
    )
    &&& forall|i: int|
        0 <= i < events.len() ==> (#[trigger] states[i]).spec_expects(events[i]) && states[i
            + 1].follows(replicas[i], limits, states[i], events[i])
}

/// A request for a copy up to an LSN only ever leads to the encoding of the snapshot at
/// exactly that LSN, however much more is applied: at once or after waiting, but not
/// before that much is applied. What is sent carries that LSN, in operations that are the
/// encoded bytes in order.
pub proof fn copies_are_of_the_lsn_that_was_asked_for<S>(
    limits: Limits,
    lsn: Lsn,
    replicas: Seq<Replica<S>>,
    states: Seq<ProviderState<S>>,
    events: Seq<ProviderEvent<S>>,
    i: int,
)
    requires
        is_copy_request(limits, lsn, replicas, states, events),
        0 <= i < states.len(),
    ensures
        match states[i] {
            ProviderState::AwaitApplied { up_to_lsn } => up_to_lsn == lsn,
            ProviderState::EncodeCopy { up_to_lsn, max_bytes } => up_to_lsn == lsn && max_bytes
                == limits.max_snapshot_bytes,
            ProviderState::SendCopy { operations } => {
                &&& forall|j: int|
                    0 <= j < operations@.len() ==> (#[trigger] operations@[j]).lsn == lsn
                &&& i > 0
                &&& events[i - 1] matches ProviderEvent::Encoded(Ok(contents))
                &&& laws::joined(operations@) == contents@
            },
            ProviderState::Answer { answer } => answer is Failed,
            _ => false,
        },
        i == 0 ==> (states[i] is EncodeCopy <==> lsn <= replicas[0].snapshot.applied_lsn),
        i == 0 ==> (states[i] is AwaitApplied <==> lsn > replicas[0].snapshot.applied_lsn),
        i > 0 && states[i] is EncodeCopy ==> lsn <= replicas[i - 1].snapshot.applied_lsn,
        i > 0 && states[i] is AwaitApplied ==> lsn > replicas[i - 1].snapshot.applied_lsn,
    decreases i,
{
    if i > 0 {
        copies_are_of_the_lsn_that_was_asked_for(limits, lsn, replicas, states, events, i - 1);
        assert(states[i - 1].spec_expects(events[i - 1]));
        if states[i] is SendCopy {
            let contents = events[i - 1]->Encoded_0->Ok_0;
            laws::chunks_give_the_contents_back(states[i]->operations@, lsn, contents@);
            assert forall|j: int| 0 <= j < states[i]->operations@.len() implies (
            #[trigger] states[i]->operations@[j]).lsn == lsn by {
                assert(states[i]->operations@[j].is(lsn, provider::chunk(contents@, j)));
            }
        }
    }
}

/// While a copy is asked for, what came of each step decides how it goes on: time that is
/// over, an error, or an encoding that is too large end it with that as the answer; an
/// encoding that is not is sent; and nothing of it changes the replica.
pub proof fn copies_go_on_by_what_came<S>(
    before: Replica<S>,
    limits: Limits,
    lsn: Lsn,
    state: ProviderState<S>,
    event: ProviderEvent<S>,
    next: ProviderState<S>,
    error: Error,
)
    requires
        state == (ProviderState::<S>::AwaitApplied { up_to_lsn: lsn }) || state == (
        ProviderState::<S>::EncodeCopy { up_to_lsn: lsn, max_bytes: limits.max_snapshot_bytes }),
        state.spec_expects(event),
        next.follows(before, limits, state, event),
    ensures
        before.after_provider(state, event) == before,
        event is TimedOut ==> next == (ProviderState::<S>::Answer {
            answer: ProviderAnswer::Failed(KubericError::Internal(Error::RecoveryRequired)),
        }),
        event == ProviderEvent::<S>::Inaccessible(error) || event == ProviderEvent::<S>::Encoded(
            Err(error),
        ) ==> next == (ProviderState::<S>::Answer {
            answer: ProviderAnswer::Failed(KubericError::Internal(error)),
        }),
        event matches ProviderEvent::Encoded(Ok(contents)) ==> {
            &&& contents@.len() <= limits.max_snapshot_bytes + 32 ==> next is SendCopy
            &&& contents@.len() > limits.max_snapshot_bytes + 32 ==> next == (
            ProviderState::<S>::Answer {
                answer: ProviderAnswer::Failed(KubericError::Internal(Error::ResourceExhausted)),
            })
        },
{
}

/// A copy is sent in operations of 256 KiB, but for the last one, which has what is left
/// and is never empty.
pub proof fn copies_are_sent_in_full_operations(
    operations: Seq<crate::replicator::receiver::Operation>,
    lsn: Lsn,
    contents: Seq<u8>,
)
    requires
        provider::carries(operations, lsn, contents),
    ensures
        contents.len() == 0 <==> operations.len() == 0,
        forall|i: int|
            0 <= i < operations.len() - 1 ==> payload::contents(
                (#[trigger] operations[i]).data,
            ).len() == 262144,
        operations.len() > 0 ==> 0 < payload::contents(operations.last().data).len() <= 262144,
        laws::joined(operations) == contents,
{
    laws::chunks_give_the_contents_back(operations, lsn, contents);
    assert forall|i: int| 0 <= i < operations.len() - 1 implies payload::contents(
        (#[trigger] operations[i]).data,
    ).len() == 262144 by {
        assert(operations[i].is(lsn, provider::chunk(contents, i)));
    }
    if operations.len() > 0 {
        let last = operations.len() - 1;
        assert(operations[last].is(lsn, provider::chunk(contents, last)));
    }
}

/// An epoch update counts up the generation by one and changes nothing else yet. It is done
/// at once if no more is applied than the previous epoch has; otherwise the snapshot at
/// exactly its last LSN is recovered, and what follows that LSN is dropped from the log.
/// The replica then shows that snapshot, and has confirmed no more than before and no more
/// than that LSN.
pub proof fn epoch_updates_roll_back_to_the_previous_epoch<S>(
    before: Replica<S>,
    limits: Limits,
    lsn: Lsn,
    snapshot: Snapshot<S>,
    dropping: ProviderState<S>,
    done: ProviderState<S>,
)
    requires
        before.generation < u64::MAX,
        dropping.follows(
            before.asked(ProviderRequest::UpdateEpoch { previous_epoch_last_lsn: lsn }),
            limits,
            ProviderState::Recover { lsn },
            ProviderEvent::Recovered(Ok(snapshot)),
        ),
        done.follows(
            before.asked(ProviderRequest::UpdateEpoch { previous_epoch_last_lsn: lsn }),
            limits,
            dropping,
            ProviderEvent::RolledBack(Ok(())),
        ),
    ensures
        ({
            let request = ProviderRequest::UpdateEpoch { previous_epoch_last_lsn: lsn };
            let first = before.answering(limits, request);
            let asked = before.asked(request);
            let recovered = asked.after_provider(
                ProviderState::Recover { lsn },
                ProviderEvent::Recovered(Ok(snapshot)),
            );
            let after = recovered.after_provider(dropping, ProviderEvent::RolledBack(Ok(())));
            &&& asked.generation == before.generation + 1
            &&& asked.snapshot == before.snapshot
            &&& asked.confirmed_lsn == before.confirmed_lsn
            &&& asked.failed == before.failed
            &&& asked.role == before.role
            &&& asked.cancelled == before.cancelled
            &&& before.snapshot.applied_lsn <= lsn ==> first == (ProviderState::<S>::Answer {
                answer: ProviderAnswer::EpochUpdated,
            })
            &&& before.snapshot.applied_lsn > lsn ==> first == (ProviderState::<S>::Recover { lsn })
            &&& recovered == asked
            &&& dropping == (ProviderState::Rollback { lsn, snapshot })
            &&& done == (ProviderState::<S>::Answer { answer: ProviderAnswer::EpochUpdated })
            &&& after.snapshot == snapshot
            &&& after.confirmed_lsn <= lsn && after.confirmed_lsn <= before.confirmed_lsn
            &&& after.confirmed_lsn == lsn || after.confirmed_lsn == before.confirmed_lsn
            &&& after.failed == before.failed
            &&& drain_laws::stands_as(after, asked)
        }),
{
}

/// An epoch update that fails on the way is answered with the error and leaves the replica
/// failed and otherwise as it is.
pub proof fn failed_epoch_updates_fail_the_replica<S>(
    before: Replica<S>,
    limits: Limits,
    lsn: Lsn,
    snapshot: Snapshot<S>,
    error: Error,
    unrecovered: ProviderState<S>,
    undropped: ProviderState<S>,
)
    requires
        unrecovered.follows(
            before,
            limits,
            ProviderState::Recover { lsn },
            ProviderEvent::Recovered(Err(error)),
        ),
        undropped.follows(
            before,
            limits,
            ProviderState::Rollback { lsn, snapshot },
            ProviderEvent::RolledBack(Err(error)),
        ),
    ensures
        ({
            let failed = ProviderState::<S>::Answer {
                answer: ProviderAnswer::Failed(KubericError::Internal(error)),
            };
            let one = before.after_provider(
                ProviderState::Recover { lsn },
                ProviderEvent::Recovered(Err(error)),
            );
            let other = before.after_provider(
                ProviderState::Rollback { lsn, snapshot },
                ProviderEvent::RolledBack(Err(error)),
            );
            &&& unrecovered == failed
            &&& undropped == failed
            &&& one == other
            &&& one.failed
            &&& one.snapshot == before.snapshot
            &&& one.confirmed_lsn == before.confirmed_lsn
            &&& drain_laws::stands_as(one, before)
        }),
{
}

/// While the replica is not accessible, requests that need it are answered with the error,
/// and the others as ever. Only an epoch update leaves the replica failed.
pub proof fn inaccessible_replicas_answer_what_they_can<S>(
    before: Replica<S>,
    request: ProviderRequest,
    error: Error,
)
    ensures
        request is GetCopyContext ==> Replica::<S>::answering_inaccessible(request, error) == (
        ProviderState::<S>::Answer { answer: ProviderAnswer::EmptyContext }),
        request is OnDataLoss ==> Replica::<S>::answering_inaccessible(request, error) == (
        ProviderState::<S>::Answer { answer: ProviderAnswer::DataLoss(false) }),
        request is GetLastCommittedLsn || request is GetCopyState || request is UpdateEpoch
            ==> Replica::<S>::answering_inaccessible(request, error) == (
        ProviderState::<S>::Answer {
            answer: ProviderAnswer::Failed(KubericError::Internal(error)),
        }),
        before.asked_inaccessible(request).failed <==> before.failed || request is UpdateEpoch,
        before.asked_inaccessible(request).snapshot == before.snapshot,
        before.asked_inaccessible(request).confirmed_lsn == before.confirmed_lsn,
        drain_laws::stands_as(before.asked_inaccessible(request), before),
{
}

/// Each state of an answer expects what came of it, and a complete answer expects nothing.
pub proof fn answers_expect_what_they_asked_for<S>(
    state: ProviderState<S>,
    event: ProviderEvent<S>,
)
    ensures
        event is Waited || event is Inaccessible ==> (state.spec_expects(event)
            <==> state is AwaitApplied),
        event is TimedOut ==> (state.spec_expects(event) <==> state is AwaitApplied
            || state is EncodeCopy),
        event is Encoded ==> (state.spec_expects(event) <==> state is EncodeCopy),
        event is Recovered ==> (state.spec_expects(event) <==> state is Recover),
        event is RolledBack ==> (state.spec_expects(event) <==> state is Rollback),
{
}

/// A copy is given ten seconds, and what is applied is looked at every millisecond.
pub proof fn copies_are_given_ten_seconds()
    ensures
        provider::COPY_SECONDS == 10,
        provider::COPY_POLL_MILLISECONDS == 1,
{
}

} // verus!
