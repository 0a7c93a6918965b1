//! What a transactional replica holds.

use vstd::prelude::*;

use crate::types::{Lsn, Role};

verus! {

/// Errors of a transactional replica.
#[derive(Clone, Debug)]
pub enum Error {
    /// The replica has to recover before it can go on.
    RecoveryRequired,
    ResourceExhausted,
    /// An operation repeats one whose result is not retained.
    DuplicateRequest,
    Invalid(String),
    /// A payload could not be encoded or decoded.
    Codec(String),
    /// The log could not be read or written.
    Storage(String),
}

/// Errors as the replicator gets them.
#[derive(Clone, Debug)]
pub enum KubericError {
    Internal(Error),
}

/// Hands an error on to the replicator.
pub fn core_error(error: Error) -> (handed: KubericError)
    ensures
        handed == KubericError::Internal(error),
{
    KubericError::Internal(error)
}

/// Bytes by which an encoded value may exceed the limit of what it encodes.
pub const ENCODING_OVERHEAD_BYTES: usize = 32;

/// How large the values of a replica may be.
#[derive(Clone, Copy, Debug, PartialEq, Eq, Structural)]
pub struct Limits {
    pub max_snapshot_bytes: usize,
    pub max_transaction_bytes: usize,
}

/// Whether a value of `size` encoded bytes keeps to the limit `max_bytes`.
pub open spec fn keeps_to(size: int, max_bytes: usize) -> bool {
    size <= max_bytes + ENCODING_OVERHEAD_BYTES
}

pub(crate) fn is_within(size: usize, more: usize, max_bytes: usize) -> (within: bool)
    ensures
        within == keeps_to(size + more, max_bytes),
{
    let total: u128 = size as u128 + more as u128;
    total <= max_bytes as u128 + ENCODING_OVERHEAD_BYTES as u128
}

/// What identifies a transaction.
#[derive(Clone, Debug, PartialEq, Eq)]
pub struct TransactionId {
    pub transaction: u128,
    pub request: String,
}

/// The retained result of a committed transaction.
#[derive(Clone, Debug, PartialEq, Eq)]
pub struct RetainedResult {
    pub identity: TransactionId,
    /// SHA-256 of the encoded command.
    pub digest: Vec<u8>,
    pub version: Lsn,
}

impl RetainedResult {
    /// Whether this is the result of the transaction `identity` with a command of
    /// the given digest.
    pub open spec fn answers(self, identity: TransactionId, digest: Seq<u8>) -> bool {
        &&& self.identity.transaction == identity.transaction
        &&& self.identity.request@ == identity.request@
        &&& self.digest@ == digest
    }
}

/// The state at an LSN, with the results that are retained there.
#[derive(Clone, Debug)]
pub struct Snapshot<S> {
    pub applied_lsn: Lsn,
    pub state: S,
    pub results: Vec<RetainedResult>,
}

impl<S> Snapshot<S> {
    /// Whether the result of a transaction is retained.
    pub open spec fn retains(self, identity: TransactionId, digest: Seq<u8>) -> bool {
        exists|i: int|
            0 <= i < self.results@.len() && (#[trigger] self.results@[i]).answers(identity, digest)
    }
}

/// SHA-256 of `data`.
pub uninterp spec fn sha256(data: Seq<u8>) -> Seq<u8>;

/// Calls `sha2::Sha256::digest`. The digest depends on the data alone and takes 32
/// bytes.
#[verifier::external_body]
fn digest_of(data: &[u8]) -> (digest: Vec<u8>)
    ensures
        digest@ == sha256(data@),
        digest@.len() == 32,
{
    <sha2::Sha256 as sha2::Digest>::digest(data).to_vec()
}

/// A transactional replica. Its log is kept elsewhere.
#[derive(Debug)]
pub struct Replica<S> {
    pub snapshot: Snapshot<S>,
    /// Whether the replica can no longer be trusted to hold what it acknowledged.
    pub failed: bool,
    /// Counts the changes that fence what was begun before them.
    pub generation: u64,
    pub confirmed_lsn: Lsn,
    pub role: Role,
    /// Whether the replica has cancelled what runs on its behalf.
    pub cancelled: bool,
}

impl<S> Replica<S> {
    /// A replica that has done nothing yet.
    pub open spec fn starting(snapshot: Snapshot<S>, confirmed_lsn: Lsn) -> Replica<S> {
        Replica {
            snapshot,
            failed: false,
            generation: 0,
            confirmed_lsn,
            role: Role::Unknown,
            cancelled: false,
        }
    }

    /// A replica that starts from a recovered snapshot.
    pub fn new(snapshot: Snapshot<S>, confirmed_lsn: Lsn) -> (replica: Replica<S>)
        ensures
            replica == Replica::starting(snapshot, confirmed_lsn),
    {
        Replica {
            snapshot,
            failed: false,
            generation: 0,
            confirmed_lsn,
            role: Role::Unknown,
            cancelled: false,
        }
    }

    /// The LSN up to which operations are applied.
    pub fn applied_lsn(&self) -> (lsn: Lsn)
        ensures
            lsn == self.snapshot.applied_lsn,
    {
        self.snapshot.applied_lsn
    }

    /// Marks the replica as failed.
    pub fn fault(&mut self)
        ensures
            *final(self) == (Replica { failed: true, ..*old(self) }),
    {
        self.failed = true;
    }

    /// Whether the result of the transaction `identity` with the encoded command
    /// `command` is retained.
    pub fn retains_result(&self, identity: &TransactionId, command: &Vec<u8>) -> (retained: bool)
        ensures
            retained == self.snapshot.retains(*identity, sha256(command@)),
    {
        let digest = digest_of(command.as_slice());
        let results = &self.snapshot.results;
        let mut i: usize = 0;
        while i < results.len()
            invariant
                i <= results@.len(),
                digest@ == sha256(command@),
                results@ == self.snapshot.results@,
                forall|j: int|
                    0 <= j < i ==> !(#[trigger] results@[j]).answers(*identity, digest@),
            decreases results@.len() - i,
        {
            let result = &results[i];
            if result.identity.transaction == identity.transaction && result.identity.request
                == identity.request && result.digest == digest {
                assert(result.digest@ =~= digest@);
                assert(self.snapshot.results@[i as int].answers(*identity, digest@));
                return true;
            }
            i += 1;
        }
        false
    }
}

} // verus!
