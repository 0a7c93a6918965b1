//! How a replica answers what the replicator asks of its state.
//!
//! An answer is a sequence of states, as in [`crate::transactional::drain`].

use vstd::prelude::*;
use vstd::slice::slice_subrange;

use crate::replicator::payload;
use crate::replicator::receiver::Operation;
use crate::transactional::replica::{self, core_error, Error, KubericError, Limits, Replica, Snapshot};
use crate::types::Lsn;

verus! {

/// Most bytes that one operation of a copy carries.
pub const CHUNK_BYTES: usize = 262144;

/// Longest time in seconds that a copy may take to be encoded.
pub const COPY_SECONDS: u64 = 10;

/// Time in milliseconds between two looks at what is applied.
pub const COPY_POLL_MILLISECONDS: u64 = 1;

/// What the replicator asks.
#[derive(Clone, Copy, Debug)]
pub enum ProviderRequest {
    GetLastCommittedLsn,
    GetCopyContext,
    GetCopyState { up_to_lsn: Lsn },
    UpdateEpoch { previous_epoch_last_lsn: Lsn },
    OnDataLoss,
}

/// What the replicator is answered.
pub enum ProviderAnswer {
    LastCommittedLsn(Lsn),
    /// A copy context without any operation.
    EmptyContext,
    EpochUpdated,
    /// Whether the state changed on data loss.
    DataLoss(bool),
    Failed(KubericError),
}

/// What is to be done next.
pub enum ProviderState<S> {
    /// Wait until more operations are applied, or the time for the copy is over.
    AwaitApplied { up_to_lsn: Lsn },
    /// Recover the snapshot at `up_to_lsn` from the log and encode it within
    /// `max_bytes`.
    EncodeCopy { up_to_lsn: Lsn, max_bytes: usize },
    /// Answer with a stream and send these operations over it, until one cannot be
    /// sent.
    SendCopy { operations: Vec<Operation> },
    /// Recover the snapshot at `lsn` from the log.
    Recover { lsn: Lsn },
    /// Drop what follows `lsn` from the log.
    Rollback { lsn: Lsn, snapshot: Snapshot<S> },
    Answer { answer: ProviderAnswer },
}

/// What came of it.
pub enum ProviderEvent<S> {
    /// More operations may have been applied.
    Waited,
    /// The replica was not accessible to see what is applied.
    Inaccessible(Error),
    /// The time for the copy is over.
    TimedOut,
    Encoded(Result<Vec<u8>, Error>),
    Recovered(Result<Snapshot<S>, Error>),
    RolledBack(Result<(), Error>),
}

/// The number of operations that a copy of `size` bytes takes.
pub open spec fn chunk_count(size: nat) -> nat {
    ((size + CHUNK_BYTES - 1) / (CHUNK_BYTES as int)) as nat
}

/// The contents of the operation at `i` in a copy of `contents`.
pub open spec fn chunk(contents: Seq<u8>, i: int) -> Seq<u8> {
    let start = i * CHUNK_BYTES;
    let end = if start + CHUNK_BYTES <= contents.len() {
        start + CHUNK_BYTES
    } else {
        contents.len() as int
    };
    contents.subrange(start, end)
}

/// Whether `operations` carry `contents` at `lsn`, in order and each as full as it
/// can be.
pub open spec fn carries(operations: Seq<Operation>, lsn: Lsn, contents: Seq<u8>) -> bool {
    &&& operations.len() == chunk_count(contents.len())
    &&& forall|i: int|
        0 <= i < operations.len() ==> (#[trigger] operations[i]).is(lsn, chunk(contents, i))
}

fn copy_operations(lsn: Lsn, contents: &Vec<u8>) -> (operations: Vec<Operation>)
    ensures
        carries(operations@, lsn, contents@),
{
    let mut operations: Vec<Operation> = Vec::new();
    let mut start: usize = 0;
    while start < contents.len()
        invariant
            start <= contents@.len(),
            start == operations@.len() * CHUNK_BYTES || start == contents@.len(),
            start < contents@.len() ==> start == operations@.len() * CHUNK_BYTES,
            start == contents@.len() ==> operations@.len() == chunk_count(contents@.len()),
            forall|i: int|
                0 <= i < operations@.len() ==> (#[trigger] operations@[i]).is(
                    lsn,
                    chunk(contents@, i),
                ),
        decreases contents@.len() - start,
    {
        let end: usize = if contents.len() - start > CHUNK_BYTES {
            start + CHUNK_BYTES
        } else {
            contents.len()
        };
        let part = slice_subrange(contents.as_slice(), start, end);
        assert(part@ =~= chunk(contents@, operations@.len() as int));
        operations.push(Operation { lsn, data: payload::from_slice(part) });
        start = end;
    }
    operations
}

impl<S> ProviderState<S> {
    /// Whether `event` tells what came of this state.
    pub open spec fn spec_expects(self, event: ProviderEvent<S>) -> bool {
        match self {
            ProviderState::AwaitApplied { .. } => event is Waited || event is Inaccessible
                || event is TimedOut,
            ProviderState::EncodeCopy { .. } => event is Encoded || event is TimedOut,
            ProviderState::Recover { .. } => event is Recovered,
            ProviderState::Rollback { .. } => event is RolledBack,
            ProviderState::SendCopy { .. } => false,
            ProviderState::Answer { .. } => false,
        }
    }

    /// Decides [`ProviderState::spec_expects`].
    pub fn expects(&self, event: &ProviderEvent<S>) -> (fits: bool)
        ensures
            fits == self.spec_expects(*event),
    {
        match (self, event) {
            (ProviderState::AwaitApplied { .. }, ProviderEvent::Waited) => true,
            (ProviderState::AwaitApplied { .. }, ProviderEvent::Inaccessible(_)) => true,
            (ProviderState::AwaitApplied { .. }, ProviderEvent::TimedOut) => true,
            (ProviderState::EncodeCopy { .. }, ProviderEvent::Encoded(_)) => true,
            (ProviderState::EncodeCopy { .. }, ProviderEvent::TimedOut) => true,
            (ProviderState::Recover { .. }, ProviderEvent::Recovered(_)) => true,
            (ProviderState::Rollback { .. }, ProviderEvent::RolledBack(_)) => true,
            _ => false,
        }
    }

    /// Whether the answer is that `error` occurred.
    pub open spec fn fails_with(self, error: Error) -> bool {
        self == (ProviderState::<S>::Answer {
            answer: ProviderAnswer::Failed(KubericError::Internal(error)),
        })
    }

    /// Where a copy up to `up_to_lsn` stands while `applied_lsn` is applied.
    pub open spec fn copying(
        limits: Limits,
        applied_lsn: Lsn,
        up_to_lsn: Lsn,
    ) -> ProviderState<S> {
        if applied_lsn < up_to_lsn {
            ProviderState::AwaitApplied { up_to_lsn }
        } else {
            ProviderState::EncodeCopy { up_to_lsn, max_bytes: limits.max_snapshot_bytes }
        }
    }

    /// Whether this state follows `before` after `event`.
    pub open spec fn follows(
        self,
        replica: Replica<S>,
        limits: Limits,
        before: ProviderState<S>,
        event: ProviderEvent<S>,
    ) -> bool {
        match (before, event) {
            (ProviderState::AwaitApplied { up_to_lsn }, ProviderEvent::Waited) => self
                == ProviderState::<S>::copying(limits, replica.snapshot.applied_lsn, up_to_lsn),
            (ProviderState::AwaitApplied { .. }, ProviderEvent::Inaccessible(error)) => {
                self.fails_with(error)
            },
            (
                ProviderState::EncodeCopy { up_to_lsn, max_bytes },
                ProviderEvent::Encoded(encoded),
            ) => match encoded {
                Ok(contents) => if replica::keeps_to(contents@.len() as int, max_bytes) {
                    self matches ProviderState::SendCopy { operations } && carries(
                        operations@,
                        up_to_lsn,
                        contents@,
                    )
                } else {
                    self.fails_with(Error::ResourceExhausted)
                },
                Err(error) => self.fails_with(error),
            },
            (_, ProviderEvent::TimedOut) => self.fails_with(Error::RecoveryRequired),
            (ProviderState::Recover { lsn }, ProviderEvent::Recovered(recovered)) => match recovered {
                Ok(snapshot) => self == (ProviderState::Rollback { lsn, snapshot }),
                Err(error) => self.fails_with(error),
            },
            (ProviderState::Rollback { .. }, ProviderEvent::RolledBack(rolled_back)) => {
                match rolled_back {
                    Ok(()) => self == (ProviderState::<S>::Answer {
                        answer: ProviderAnswer::EpochUpdated,
                    }),
                    Err(error) => self.fails_with(error),
                }
            },
            _ => true,
        }
    }
}

impl<S> Replica<S> {
    /// The first state of an answer.
    pub open spec fn answering(self, limits: Limits, request: ProviderRequest) -> ProviderState<
        S,
    > {
        match request {
            ProviderRequest::GetLastCommittedLsn => ProviderState::Answer {
                answer: ProviderAnswer::LastCommittedLsn(self.snapshot.applied_lsn),
            },
            ProviderRequest::GetCopyContext => ProviderState::Answer {
                answer: ProviderAnswer::EmptyContext,
            },
            ProviderRequest::GetCopyState { up_to_lsn } => ProviderState::<S>::copying(
                limits,
                self.snapshot.applied_lsn,
                up_to_lsn,
            ),
            ProviderRequest::UpdateEpoch { previous_epoch_last_lsn } => {
                if previous_epoch_last_lsn < self.snapshot.applied_lsn {
                    ProviderState::Recover { lsn: previous_epoch_last_lsn }
                } else {
                    ProviderState::Answer { answer: ProviderAnswer::EpochUpdated }
                }
            },
            ProviderRequest::OnDataLoss => ProviderState::Answer {
                answer: ProviderAnswer::DataLoss(false),
            },
        }
    }

    /// The replica once it has been asked.
    pub open spec fn asked(self, request: ProviderRequest) -> Replica<S> {
        match request {
            ProviderRequest::UpdateEpoch { .. } => Replica {
                generation: (self.generation + 1) as u64,
                ..self
            },
            _ => self,
        }
    }

    /// The replica after `event`. A failed epoch update leaves it failed.
    pub open spec fn after_provider(
        self,
        state: ProviderState<S>,
        event: ProviderEvent<S>,
    ) -> Replica<S> {
        match (state, event) {
            (ProviderState::Recover { .. }, ProviderEvent::Recovered(Err(_))) => Replica {
                failed: true,
                ..self
            },
            (ProviderState::Rollback { .. }, ProviderEvent::RolledBack(Err(_))) => Replica {
                failed: true,
                ..self
            },
            (ProviderState::Rollback { lsn, snapshot }, ProviderEvent::RolledBack(Ok(()))) => {
                Replica {
                    snapshot,
                    confirmed_lsn: if lsn < self.confirmed_lsn {
                        lsn
                    } else {
                        self.confirmed_lsn
                    },
                    ..self
                }
            },
            _ => self,
        }
    }

    /// Begins to answer a request.
    pub fn ask(&mut self, limits: Limits, request: ProviderRequest) -> (state: ProviderState<S>)
        requires
            request is UpdateEpoch ==> old(self).generation < u64::MAX,
        ensures
            *final(self) == old(self).asked(request),
            state == old(self).answering(limits, request),
    {
        match request {
            ProviderRequest::GetLastCommittedLsn => ProviderState::Answer {
                answer: ProviderAnswer::LastCommittedLsn(self.applied_lsn()),
            },
            ProviderRequest::GetCopyContext => ProviderState::Answer {
                answer: ProviderAnswer::EmptyContext,
            },
            ProviderRequest::GetCopyState { up_to_lsn } => {
                if self.applied_lsn() < up_to_lsn {
                    ProviderState::AwaitApplied { up_to_lsn }
                } else {
                    ProviderState::EncodeCopy { up_to_lsn, max_bytes: limits.max_snapshot_bytes }
                }
            },
            ProviderRequest::UpdateEpoch { previous_epoch_last_lsn } => {
                self.generation = self.generation + 1;
                if previous_epoch_last_lsn < self.applied_lsn() {
                    ProviderState::Recover { lsn: previous_epoch_last_lsn }
                } else {
                    ProviderState::Answer { answer: ProviderAnswer::EpochUpdated }
                }
            },
            ProviderRequest::OnDataLoss => ProviderState::Answer {
                answer: ProviderAnswer::DataLoss(false),
            },
        }
    }

    /// The first state of an answer where the replica is not accessible.
    pub open spec fn answering_inaccessible(
        request: ProviderRequest,
        error: Error,
    ) -> ProviderState<S> {
        match request {
            ProviderRequest::GetCopyContext => ProviderState::Answer {
                answer: ProviderAnswer::EmptyContext,
            },
            ProviderRequest::OnDataLoss => ProviderState::Answer {
                answer: ProviderAnswer::DataLoss(false),
            },
            _ => ProviderState::Answer {
                answer: ProviderAnswer::Failed(KubericError::Internal(error)),
            },
        }
    }

    /// The replica once it has been asked while it was not accessible.
    pub open spec fn asked_inaccessible(self, request: ProviderRequest) -> Replica<S> {
        if request is UpdateEpoch {
            Replica { failed: true, ..self }
        } else {
            self
        }
    }

    /// Answers a request where the replica was not accessible: with the error, unless
    /// the answer does not depend on the replica. A failed epoch update leaves the
    /// replica failed.
    pub fn ask_inaccessible(&mut self, request: ProviderRequest, error: Error) -> (state:
        ProviderState<S>)
        ensures
            *final(self) == old(self).asked_inaccessible(request),
            state == Replica::<S>::answering_inaccessible(request, error),
    {
        match request {
            ProviderRequest::GetCopyContext => ProviderState::Answer {
                answer: ProviderAnswer::EmptyContext,
            },
            ProviderRequest::OnDataLoss => ProviderState::Answer {
                answer: ProviderAnswer::DataLoss(false),
            },
            ProviderRequest::UpdateEpoch { .. } => {
                self.fault();
                ProviderState::Answer { answer: ProviderAnswer::Failed(core_error(error)) }
            },
            _ => ProviderState::Answer { answer: ProviderAnswer::Failed(core_error(error)) },
        }
    }

    /// One step of an answer. A copy waits until everything up to the wanted LSN is
    /// applied, and is sent in chunks unless it is too large. An epoch update drops what
    /// was applied beyond the end of the previous epoch.
    pub fn provider(
        &mut self,
        limits: Limits,
        state: ProviderState<S>,
        event: ProviderEvent<S>,
    ) -> (next: ProviderState<S>)
        requires
            state.spec_expects(event),
        ensures
            *final(self) == old(self).after_provider(state, event),
            next.follows(*old(self), limits, state, event),
    {
        match (state, event) {
            (ProviderState::AwaitApplied { up_to_lsn }, ProviderEvent::Waited) => {
                if self.applied_lsn() < up_to_lsn {
                    ProviderState::AwaitApplied { up_to_lsn }
                } else {
                    ProviderState::EncodeCopy { up_to_lsn, max_bytes: limits.max_snapshot_bytes }
                }
            },
            (ProviderState::AwaitApplied { .. }, ProviderEvent::Inaccessible(error)) => {
                ProviderState::Answer { answer: ProviderAnswer::Failed(core_error(error)) }
            },
            (
                ProviderState::EncodeCopy { up_to_lsn, max_bytes },
                ProviderEvent::Encoded(encoded),
            ) => match encoded {
                Ok(contents) => if replica::is_within(contents.len(), 0, max_bytes) {
                    ProviderState::SendCopy { operations: copy_operations(up_to_lsn, &contents) }
                } else {
                    ProviderState::Answer {
                        answer: ProviderAnswer::Failed(core_error(Error::ResourceExhausted)),
                    }
                },
                Err(error) => ProviderState::Answer {
                    answer: ProviderAnswer::Failed(core_error(error)),
                },
            },
            (_, ProviderEvent::TimedOut) => ProviderState::Answer {
                answer: ProviderAnswer::Failed(core_error(Error::RecoveryRequired)),
            },
            (ProviderState::Recover { lsn }, ProviderEvent::Recovered(recovered)) => match recovered {
                Ok(snapshot) => ProviderState::Rollback { lsn, snapshot },
                Err(error) => {
                    self.fault();
                    ProviderState::Answer { answer: ProviderAnswer::Failed(core_error(error)) }
                },
            },
            (ProviderState::Rollback { lsn, snapshot }, ProviderEvent::RolledBack(rolled_back)) => {
                match rolled_back {
                    Ok(()) => {
                        self.snapshot = snapshot;
                        if lsn < self.confirmed_lsn {
                            self.confirmed_lsn = lsn;
                        }
                        ProviderState::Answer { answer: ProviderAnswer::EpochUpdated }
                    },
                    Err(error) => {
                        self.fault();
                        ProviderState::Answer { answer: ProviderAnswer::Failed(core_error(error)) }
                    },
                }
            },
            (state, _) => state,
        }
    }
}

} // verus!
