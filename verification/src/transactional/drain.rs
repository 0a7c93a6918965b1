//! How a replica takes in a stream of operations: a copy of full state, or the
//! incremental operations that follow it.
//!
//! A drain is a sequence of states. Each state says what is to be done next; what
//! came of it is handed to [`Replica::drain`], which gives the next state. The
//! steps from the arrival of an operation to its acknowledgement are made without
//! any other use of the replica in between.

use vstd::prelude::*;

use crate::replicator::payload;
use crate::replicator::receiver::Operation;
use crate::transactional::replica::{self, Error, Limits, Replica, Snapshot, TransactionId};
use crate::types::Lsn;

verus! {

/// A transaction as an operation carries it.
#[derive(Clone, Debug)]
pub struct DecodedTransaction {
    pub identity: TransactionId,
    /// The encoded command.
    pub command: Vec<u8>,
}

/// What is to be done next.
pub enum DrainState<S> {
    /// Wait for the next operation, the end of the stream or a cancellation.
    Receive { contents: Vec<u8> },
    /// Decode the payload of an operation that is already applied, within `max_bytes`.
    Decode { payload: Vec<u8>, max_bytes: usize },
    /// Apply the payload of an operation to the snapshot.
    Build { lsn: Lsn, payload: Vec<u8> },
    /// Append the operation to the log.
    Append { lsn: Lsn, payload: Vec<u8>, snapshot: Snapshot<S> },
    /// Acknowledge the operation.
    Acknowledge { contents: Vec<u8> },
    /// Decode and check a complete copy.
    Check { lsn: Lsn, contents: Vec<u8> },
    /// Replace the log by the copy.
    Install { lsn: Lsn, contents: Vec<u8>, snapshot: Snapshot<S> },
    /// Acknowledge the completion of the copy.
    AcknowledgeCompletion,
    Finished { outcome: Result<(), Error> },
}

/// What came of it.
pub enum DrainEvent<S> {
    Cancelled,
    Arrived(Operation),
    /// An operation arrived, but the replica was not accessible to take it in.
    Inaccessible(Error),
    /// The stream ended, with the LSN of its boundary if it had one.
    Ended { copy_lsn: Option<Lsn> },
    Decoded(Result<DecodedTransaction, Error>),
    Built(Result<Snapshot<S>, Error>),
    Appended(Result<(), Error>),
    Acknowledged,
    Checked(Result<Snapshot<S>, Error>),
    Installed(Result<(), Error>),
    CompletionAcknowledged(Result<(), Error>),
}

impl<S> DrainState<S> {
    /// Whether `event` tells what came of this state.
    pub open spec fn spec_expects(self, event: DrainEvent<S>) -> bool {
        match self {
            DrainState::Receive { .. } => event is Cancelled || event is Arrived
                || event is Inaccessible || event is Ended,
            DrainState::Decode { .. } => event is Decoded,
            DrainState::Build { .. } => event is Built,
            DrainState::Append { .. } => event is Appended,
            DrainState::Acknowledge { .. } => event is Acknowledged,
            DrainState::Check { .. } => event is Checked,
            DrainState::Install { .. } => event is Installed,
            DrainState::AcknowledgeCompletion => event is CompletionAcknowledged,
            DrainState::Finished { .. } => false,
        }
    }

    /// Decides [`DrainState::spec_expects`].
    pub fn expects(&self, event: &DrainEvent<S>) -> (fits: bool)
        ensures
            fits == self.spec_expects(*event),
    {
        match (self, event) {
            (DrainState::Receive { .. }, DrainEvent::Cancelled) => true,
            (DrainState::Receive { .. }, DrainEvent::Arrived(_)) => true,
            (DrainState::Receive { .. }, DrainEvent::Inaccessible(_)) => true,
            (DrainState::Receive { .. }, DrainEvent::Ended { .. }) => true,
            (DrainState::Decode { .. }, DrainEvent::Decoded(_)) => true,
            (DrainState::Build { .. }, DrainEvent::Built(_)) => true,
            (DrainState::Append { .. }, DrainEvent::Appended(_)) => true,
            (DrainState::Acknowledge { .. }, DrainEvent::Acknowledged) => true,
            (DrainState::Check { .. }, DrainEvent::Checked(_)) => true,
            (DrainState::Install { .. }, DrainEvent::Installed(_)) => true,
            (DrainState::AcknowledgeCompletion, DrainEvent::CompletionAcknowledged(_)) => true,
            _ => false,
        }
    }

    /// Whether the drain has ended with `error`.
    pub open spec fn fails_with(self, error: Error) -> bool {
        self == (DrainState::<S>::Finished { outcome: Err(error) })
    }

    /// Whether the drain has ended because the stream was not in order.
    pub open spec fn is_invalid(self, reason: Seq<char>) -> bool {
        self matches DrainState::Finished { outcome: Err(Error::Invalid(text)) } && text@ == reason
    }

    /// Whether this state acknowledges an operation, with `contents` of the copy so
    /// far.
    pub open spec fn acknowledges(self, contents: Seq<u8>) -> bool {
        self matches DrainState::Acknowledge { contents: c } && c@ == contents
    }

    /// Whether this state follows the arrival of `operation` at `replica`.
    pub open spec fn follows_arrival(
        self,
        replica: Replica<S>,
        copy: bool,
        limits: Limits,
        contents: Seq<u8>,
        operation: Operation,
    ) -> bool {
        let data = payload::contents(operation.data);
        if copy {
            if replica::keeps_to((contents.len() + data.len()) as int, limits.max_snapshot_bytes) {
                self.acknowledges(contents + data)
            } else {
                self.fails_with(Error::ResourceExhausted)
            }
        } else if replica.failed {
            self.fails_with(Error::RecoveryRequired)
        } else if operation.lsn <= replica.snapshot.applied_lsn {
            if replica::keeps_to(data.len() as int, limits.max_transaction_bytes) {
                self matches DrainState::Decode { payload, max_bytes } && payload@ == data
                    && max_bytes == limits.max_transaction_bytes
            } else {
                self.fails_with(Error::ResourceExhausted)
            }
        } else {
            self matches DrainState::Build { lsn, payload } && lsn == operation.lsn && payload@
                == data
        }
    }

    /// Whether this state follows `before` after `event`.
    pub open spec fn follows(
        self,
        replica: Replica<S>,
        copy: bool,
        limits: Limits,
        before: DrainState<S>,
        event: DrainEvent<S>,
    ) -> bool {
        match (before, event) {
            (DrainState::Receive { .. }, DrainEvent::Cancelled) => self.fails_with(
                Error::RecoveryRequired,
            ),
            (DrainState::Receive { .. }, DrainEvent::Inaccessible(error)) => self.fails_with(error),
            (DrainState::Receive { contents }, DrainEvent::Arrived(operation)) => {
                self.follows_arrival(replica, copy, limits, contents@, operation)
            },
            (DrainState::Receive { contents }, DrainEvent::Ended { copy_lsn }) => if copy {
                match copy_lsn {
                    Some(lsn) => self == (DrainState::<S>::Check { lsn, contents }),
                    None => self.is_invalid("copy boundary missing"@),
                }
            } else {
                self == (DrainState::<S>::Finished { outcome: Ok(()) })
            },
            (DrainState::Decode { .. }, DrainEvent::Decoded(decoded)) => match decoded {
                Ok(transaction) => if replica.snapshot.retains(
                    transaction.identity,
                    replica::sha256(transaction.command@),
                ) {
                    self.acknowledges(Seq::empty())
                } else {
                    self.fails_with(Error::DuplicateRequest)
                },
                Err(error) => self.fails_with(error),
            },
            (DrainState::Build { lsn, payload }, DrainEvent::Built(built)) => match built {
                Ok(snapshot) => self == (DrainState::Append { lsn, payload, snapshot }),
                Err(error) => self.fails_with(error),
            },
            (DrainState::Append { .. }, DrainEvent::Appended(appended)) => match appended {
                Ok(()) => self.acknowledges(Seq::empty()),
                Err(error) => self.fails_with(error),
            },
            (DrainState::Acknowledge { contents }, DrainEvent::Acknowledged) => self == (
            DrainState::<S>::Receive { contents }),
            (DrainState::Check { lsn, contents }, DrainEvent::Checked(checked)) => match checked {
                Ok(snapshot) => if snapshot.applied_lsn == lsn {
                    self == (DrainState::Install { lsn, contents, snapshot })
                } else {
                    self.is_invalid("copy LSN mismatch"@)
                },
                Err(error) => self.fails_with(error),
            },
            (DrainState::Install { .. }, DrainEvent::Installed(installed)) => match installed {
                Ok(()) => self == DrainState::<S>::AcknowledgeCompletion,
                Err(error) => self.fails_with(error),
            },
            (
                DrainState::AcknowledgeCompletion,
                DrainEvent::CompletionAcknowledged(acknowledged),
            ) => self == (DrainState::<S>::Finished { outcome: acknowledged }),
            _ => true,
        }
    }
}

impl<S> Replica<S> {
    /// The replica after `event`. An operation shows once it is in the log. While a
    /// copy is installed the replica counts as failed, and it stays so if the
    /// installation fails.
    pub open spec fn after_drain(self, state: DrainState<S>, event: DrainEvent<S>) -> Replica<S> {
        match (state, event) {
            (DrainState::Append { snapshot, .. }, DrainEvent::Appended(Ok(()))) => Replica {
                snapshot,
                ..self
            },
            (DrainState::Check { lsn, .. }, DrainEvent::Checked(Ok(snapshot))) => {
                if snapshot.applied_lsn == lsn {
                    Replica { failed: true, ..self }
                } else {
                    self
                }
            },
            (DrainState::Install { lsn, snapshot, .. }, DrainEvent::Installed(Ok(()))) => Replica {
                snapshot,
                confirmed_lsn: lsn,
                failed: false,
                ..self
            },
            _ => self,
        }
    }

    /// One step of a drain. In a copy the data of all operations is put together,
    /// checked against the boundary of the stream and installed as a whole.
    /// Otherwise each new operation is applied and appended to the log before it is
    /// acknowledged, and one that is already applied is acknowledged only if its
    /// result is retained. A copy that is too large ends the drain, and so does such a
    /// repeated operation.
    pub fn drain(
        &mut self,
        copy: bool,
        limits: Limits,
        state: DrainState<S>,
        event: DrainEvent<S>,
    ) -> (next: DrainState<S>)
        requires
            state.spec_expects(event),
        ensures
            *final(self) == old(self).after_drain(state, event),
            next.follows(*old(self), copy, limits, state, event),
    {
        match (state, event) {
            (DrainState::Receive { .. }, DrainEvent::Cancelled) => DrainState::Finished {
                outcome: Err(Error::RecoveryRequired),
            },
            (DrainState::Receive { .. }, DrainEvent::Inaccessible(error)) => DrainState::Finished {
                outcome: Err(error),
            },
            (DrainState::Receive { contents }, DrainEvent::Arrived(operation)) => {
                let payload: Vec<u8> = payload::to_vec(&operation.data);
                if copy {
                    if !replica::is_within(
                        contents.len(),
                        payload.len(),
                        limits.max_snapshot_bytes,
                    ) {
                        return DrainState::Finished { outcome: Err(Error::ResourceExhausted) };
                    }
                    let mut contents = contents;
                    let mut payload = payload;
                    contents.append(&mut payload);
                    DrainState::Acknowledge { contents }
                } else if self.failed {
                    DrainState::Finished { outcome: Err(Error::RecoveryRequired) }
                } else if operation.lsn <= self.snapshot.applied_lsn {
                    if !replica::is_within(payload.len(), 0, limits.max_transaction_bytes) {
                        return DrainState::Finished { outcome: Err(Error::ResourceExhausted) };
                    }
                    DrainState::Decode { payload, max_bytes: limits.max_transaction_bytes }
                } else {
                    DrainState::Build { lsn: operation.lsn, payload }
                }
            },
            (DrainState::Receive { contents }, DrainEvent::Ended { copy_lsn }) => {
                if !copy {
                    return DrainState::Finished { outcome: Ok(()) };
                }
                match copy_lsn {
                    Some(lsn) => DrainState::Check { lsn, contents },
                    None => DrainState::Finished {
                        outcome: Err(Error::Invalid("copy boundary missing".to_owned())),
                    },
                }
            },
            (DrainState::Decode { .. }, DrainEvent::Decoded(decoded)) => match decoded {
                Ok(transaction) => if self.retains_result(
                    &transaction.identity,
                    &transaction.command,
                ) {
                    DrainState::Acknowledge { contents: Vec::new() }
                } else {
                    DrainState::Finished { outcome: Err(Error::DuplicateRequest) }
                },
                Err(error) => DrainState::Finished { outcome: Err(error) },
            },
            (DrainState::Build { lsn, payload }, DrainEvent::Built(built)) => match built {
                Ok(snapshot) => DrainState::Append { lsn, payload, snapshot },
                Err(error) => DrainState::Finished { outcome: Err(error) },
            },
            (DrainState::Append { snapshot, .. }, DrainEvent::Appended(appended)) => match appended {
                Ok(()) => {
                    self.snapshot = snapshot;
                    DrainState::Acknowledge { contents: Vec::new() }
                },
                Err(error) => DrainState::Finished { outcome: Err(error) },
            },
            (DrainState::Acknowledge { contents }, DrainEvent::Acknowledged) => DrainState::Receive {
                contents,
            },
            (DrainState::Check { lsn, contents }, DrainEvent::Checked(checked)) => match checked {
                Ok(snapshot) => {
                    if snapshot.applied_lsn != lsn {
                        return DrainState::Finished {
                            outcome: Err(Error::Invalid("copy LSN mismatch".to_owned())),
                        };
                    }
                    self.failed = true;
                    DrainState::Install { lsn, contents, snapshot }
                },
                Err(error) => DrainState::Finished { outcome: Err(error) },
            },
            (DrainState::Install { lsn, snapshot, .. }, DrainEvent::Installed(installed)) => {
                match installed {
                    Ok(()) => {
                        self.snapshot = snapshot;
                        self.confirmed_lsn = lsn;
                        self.failed = false;
                        DrainState::AcknowledgeCompletion
                    },
                    Err(error) => DrainState::Finished { outcome: Err(error) },
                }
            },
            (
                DrainState::AcknowledgeCompletion,
                DrainEvent::CompletionAcknowledged(acknowledged),
            ) => DrainState::Finished { outcome: acknowledged },
            (state, _) => state,
        }
    }
}

} // verus!
