//! What holds of a file behind the barrier across operations. In each law `behind`
//! stands for the contents of the file behind.

use vstd::prelude::*;

use crate::barrier::vfs::{
    self, RegisterError, RegisterEvent, RegisterState, SyncEvent, SyncState, WriteState,
    SQLITE_IOERR_WRITE, SQLITE_OK,
};
use crate::barrier::wal::{self, StageView, WalLayout};

verus! {

/// A write that adjoins what is held back leaves the file behind as it is, and
/// SQLite sees it at once.
pub proof fn writes_are_seen_at_once(
    file: Option<StageView>,
    behind: Seq<u8>,
    offset: nat,
    data: Seq<u8>,
    state: WriteState,
)
    requires
        file is Some,
        file->Some_0.adjoins(offset),
        vfs::writes(file, offset, data, state),
    ensures
        state == (WriteState::Return { code: SQLITE_OK }),
        vfs::seen(vfs::after_write(file, offset, data), behind) == wal::write_at(
            vfs::seen(file, behind),
            offset,
            data,
        ),
{
    assert(vfs::seen(vfs::after_write(file, offset, data), behind) =~= wal::write_at(
        vfs::seen(file, behind),
        offset,
        data,
    ));
}

/// A write that lies apart from frames which complete no transaction is seen once they
/// have been flushed, together with everything before it.
pub proof fn writes_apart_are_seen_after_the_flush(
    file: Option<StageView>,
    behind: Seq<u8>,
    offset: nat,
    data: Seq<u8>,
    state: WriteState,
)
    requires
        file is Some,
        !file->Some_0.adjoins(offset),
        vfs::with_header(file->Some_0, offset, data).commit_pages() is None,
        vfs::writes(file, offset, data, state),
    ensures
        state matches WriteState::Flush { start, bytes, data: rest } && {
            let flushed = wal::write_at(behind, start as nat, bytes@);
            let after = vfs::after_write(file, offset, data);
            &&& !vfs::holds_back(after)
            &&& vfs::seen(after, flushed) == vfs::seen(file, behind)
            &&& vfs::seen(Some(after->Some_0.with_write(offset, rest@)), flushed) == wal::write_at(
                vfs::seen(file, behind),
                offset,
                data,
            )
        },
{
    let stage = file->Some_0;
    let flushed = wal::write_at(behind, stage.start, stage.bytes);
    let after = vfs::after_write(file, offset, data);
    assert(vfs::seen(after, flushed) =~= flushed);
}

/// A write that lies apart from a transaction puts that before the barrier and leaves it
/// held back until the barrier has decided.
pub proof fn writes_apart_wait_for_the_barrier(
    file: Option<StageView>,
    offset: nat,
    data: Seq<u8>,
    state: WriteState,
)
    requires
        file is Some,
        !file->Some_0.adjoins(offset),
        vfs::with_header(file->Some_0, offset, data).commit_pages() is Some,
        vfs::writes(file, offset, data, state),
    ensures
        state is Publish,
        state->transaction.frames@ == file->Some_0.bytes,
        vfs::after_write(file, offset, data) == Some(
            vfs::with_header(file->Some_0, offset, data),
        ),
{
}

/// What a write flushes without asking the barrier completes no transaction, as far as
/// the layout of the log is known.
pub proof fn unpublished_writes_commit_nothing(
    file: Option<StageView>,
    offset: nat,
    data: Seq<u8>,
    state: WriteState,
)
    requires
        vfs::writes(file, offset, data, state),
        state is Flush,
    ensures
        vfs::holds_back(file),
        state->Flush_bytes@ == file->Some_0.bytes,
        vfs::with_header(file->Some_0, offset, data).commit_pages() is None,
{
}

/// Once the barrier has accepted the transaction, a write that lies apart from it goes
/// on as if no transaction had been held back. If the barrier rejects the transaction,
/// the write fails, the file behind stays as it is and SQLite sees neither.
pub proof fn writes_apart_follow_the_barrier(
    stage: StageView,
    behind: Seq<u8>,
    offset: nat,
    data: Seq<u8>,
    accepted: bool,
    next: WriteState,
)
    requires
        vfs::write_follows(stage, accepted, data, next),
    ensures
        accepted ==> (next matches WriteState::Flush { start, bytes, data: rest } && {
            let flushed = wal::write_at(behind, start as nat, bytes@);
            vfs::seen(Some(stage.emptied().with_write(offset, rest@)), flushed) == wal::write_at(
                vfs::seen(Some(stage), behind),
                offset,
                data,
            )
        }),
        !accepted ==> next == (WriteState::Return { code: SQLITE_IOERR_WRITE }) && vfs::seen(
            Some(stage.emptied()),
            behind,
        ) == behind,
{
    assert(vfs::seen(Some(stage.emptied()), behind) =~= behind);
}

/// A read gives what SQLite sees: bytes that are held back as they are held back,
/// and otherwise what the file behind gives with the held-back bytes put over it.
pub proof fn reads_give_what_is_seen(
    file: Option<StageView>,
    behind: Seq<u8>,
    offset: nat,
    amount: nat,
)
    ensures
        !vfs::holds_back(file) ==> vfs::seen(file, behind) == behind,
        file matches Some(stage) ==> stage.overlaid(offset, wal::read_at(behind, offset, amount))
            == wal::read_at(vfs::seen(file, behind), offset, amount),
        file matches Some(stage) ==> (stage.covers(offset, amount) ==> stage.bytes.subrange(
            offset - stage.start,
            offset + amount - stage.start,
        ) == wal::read_at(vfs::seen(file, behind), offset, amount)),
{
    if !vfs::holds_back(file) {
        assert(vfs::seen(file, behind) =~= behind);
    }
    if file is Some {
        let stage = file->Some_0;
        let read = wal::read_at(vfs::seen(file, behind), offset, amount);
        assert(stage.overlaid(offset, wal::read_at(behind, offset, amount)) =~= read);
        if stage.covers(offset, amount) {
            assert(stage.bytes.subrange(
                offset - stage.start,
                offset + amount - stage.start,
            ) =~= read);
        }
    }
}

/// A read gives back what was written last at its offset.
pub proof fn reads_give_back_what_was_written(
    file: Option<StageView>,
    behind: Seq<u8>,
    offset: nat,
    data: Seq<u8>,
)
    requires
        file is Some,
        file->Some_0.adjoins(offset),
    ensures
        wal::read_at(
            vfs::seen(vfs::after_write(file, offset, data), behind),
            offset,
            data.len(),
        ) == data,
{
    assert(wal::read_at(
        vfs::seen(vfs::after_write(file, offset, data), behind),
        offset,
        data.len(),
    ) =~= data);
}

/// Truncating the stage and the file behind truncates what SQLite sees.
pub proof fn truncation_is_seen(file: Option<StageView>, behind: Seq<u8>, size: nat)
    ensures
        ({
            let cut = vfs::truncated(file, size);
            vfs::seen(cut, wal::resize(behind, size)) == wal::resize(vfs::seen(file, behind), size)
        }),
{
    let cut = vfs::truncated(file, size);
    assert(vfs::seen(cut, wal::resize(behind, size)) =~= wal::resize(
        vfs::seen(file, behind),
        size,
    ));
}

/// The size that is reported is that of what SQLite sees.
pub proof fn size_is_that_of_what_is_seen(file: Option<StageView>, behind: Seq<u8>)
    ensures
        vfs::seen(file, behind).len() == (match file {
            Some(stage) if stage.bytes.len() > 0 && stage.end() > behind.len() => stage.end(),
            _ => behind.len(),
        }),
{
}

/// While a committed transaction is held back, a sync writes nothing before the
/// barrier has accepted it; the transaction stays held back until the barrier has
/// decided.
pub proof fn commits_wait_for_the_barrier(file: Option<StageView>, state: SyncState)
    requires
        vfs::holds_back(file),
        file->Some_0.commit_pages() is Some,
        vfs::syncs(file, state),
    ensures
        state is Publish,
        state->transaction.frames@ == file->Some_0.bytes,
        vfs::after_sync(file) == file,
{
}

/// What a sync writes without asking the barrier completes no transaction, as far
/// as the layout of the log is known.
pub proof fn unpublished_frames_commit_nothing(file: Option<StageView>, state: SyncState)
    requires
        vfs::syncs(file, state),
        state is Write,
    ensures
        vfs::holds_back(file),
        state->bytes@ == file->Some_0.bytes,
        file->Some_0.commit_pages() is None,
{
}

/// A transaction that the barrier rejects leaves no trace: the file behind stays as
/// it is, SQLite no longer sees the transaction, and the sync fails.
pub proof fn rejected_transactions_leave_no_trace(
    file: Option<StageView>,
    behind: Seq<u8>,
    next: SyncState,
)
    requires
        file is Some,
        vfs::sync_follows(file, SyncEvent::Published { accepted: false }, next),
    ensures
        ({
            let after = vfs::after_sync_event(file, SyncEvent::Published { accepted: false });
            &&& next == (SyncState::Return { code: SQLITE_IOERR_WRITE })
            &&& !vfs::holds_back(after)
            &&& vfs::seen(after, behind) == behind
        }),
{
    let after = vfs::after_sync_event(file, SyncEvent::Published { accepted: false });
    assert(vfs::seen(after, behind) =~= behind);
}

/// A transaction that the barrier accepts is written where it belongs: the file
/// behind then holds what SQLite saw before, and nothing is held back.
pub proof fn accepted_transactions_are_written(
    file: Option<StageView>,
    behind: Seq<u8>,
    next: SyncState,
)
    requires
        file is Some,
        vfs::sync_follows(file, SyncEvent::Published { accepted: true }, next),
    ensures
        next matches SyncState::Write { start, bytes } && {
            let after = vfs::after_sync_event(file, SyncEvent::Published { accepted: true });
            let written = wal::write_at(behind, start as nat, bytes@);
            &&& !vfs::holds_back(after)
            &&& vfs::seen(after, written) == written
            &&& written == vfs::seen(file, behind)
        },
{
    let stage = file->Some_0;
    let after = vfs::after_sync_event(file, SyncEvent::Published { accepted: true });
    let written = wal::write_at(behind, stage.start, stage.bytes);
    assert(vfs::seen(after, written) =~= written);
}

/// A sync that writes nothing but incomplete transactions leaves what SQLite sees
/// as it is.
pub proof fn flushing_changes_nothing_seen(
    file: Option<StageView>,
    behind: Seq<u8>,
    state: SyncState,
)
    requires
        vfs::syncs(file, state),
        state is Write,
    ensures
        ({
            let written = wal::write_at(behind, state->start as nat, state->bytes@);
            &&& vfs::seen(vfs::after_sync(file), written) == written
            &&& written == vfs::seen(file, behind)
        }),
{
    let written = wal::write_at(behind, state->start as nat, state->bytes@);
    assert(vfs::seen(vfs::after_sync(file), written) =~= written);
}

/// An operation of SQLite that can change a file. It comes with what the barrier decides
/// if it is asked.
pub enum FileOperation {
    Write { offset: nat, data: Seq<u8>, accepted: bool },
    Truncate { size: nat },
    Sync { accepted: bool },
}

impl FileOperation {
    /// Whether the barrier accepts what it is asked about.
    pub open spec fn is_accepted(self) -> bool {
        match self {
            FileOperation::Write { accepted, .. } => accepted,
            FileOperation::Truncate { .. } => false,
            FileOperation::Sync { accepted } => accepted,
        }
    }
}

/// What an operation takes out of what is held back, to write it behind or to drop it.
pub open spec fn taken(file: Option<StageView>, operation: FileOperation) -> Option<StageView> {
    match (file, operation) {
        (Some(stage), FileOperation::Write { offset, data, .. }) => if stage.adjoins(offset) {
            None
        } else {
            Some(vfs::with_header(stage, offset, data))
        },
        (Some(stage), FileOperation::Sync { .. }) => if stage.bytes.len() > 0 {
            Some(stage)
        } else {
            None
        },
        _ => None,
    }
}

/// Whether the barrier is asked and rejects.
pub open spec fn is_rejected(file: Option<StageView>, operation: FileOperation) -> bool {
    taken(file, operation) matches Some(stage) && stage.commit_pages() is Some
        && !operation.is_accepted()
}

/// What an operation writes behind of what was held back.
pub open spec fn written(file: Option<StageView>, operation: FileOperation) -> Option<StageView> {
    if is_rejected(file, operation) {
        None
    } else {
        taken(file, operation)
    }
}

/// What a file holds back after an operation.
pub open spec fn after_operation(
    file: Option<StageView>,
    operation: FileOperation,
) -> Option<StageView> {
    match (file, operation) {
        (None, _) => None,
        (Some(stage), FileOperation::Write { offset, data, .. }) => {
            let begun = vfs::after_write(file, offset, data);
            if stage.adjoins(offset) {
                begun
            } else if is_rejected(file, operation) {
                Some(begun->Some_0.emptied())
            } else {
                Some(begun->Some_0.emptied().with_write(offset, data))
            }
        },
        (Some(stage), FileOperation::Truncate { size }) => Some(stage.cut(size)),
        (Some(stage), FileOperation::Sync { accepted }) => {
            let begun = vfs::after_sync(file);
            if stage.bytes.len() > 0 && stage.commit_pages() is Some {
                vfs::after_sync_event(begun, SyncEvent::Published { accepted })
            } else {
                begun
            }
        },
    }
}

/// The file behind after an operation.
pub open spec fn behind_after(
    file: Option<StageView>,
    behind: Seq<u8>,
    operation: FileOperation,
) -> Seq<u8> {
    match (file, operation) {
        (None, FileOperation::Write { offset, data, .. }) => wal::write_at(behind, offset, data),
        (_, FileOperation::Truncate { size }) => wal::resize(behind, size),
        _ => match written(file, operation) {
            Some(stage) => stage.over(behind),
            None => behind,
        },
    }
}

/// What a file holds back after a run of operations.
pub open spec fn after_operations(
    file: Option<StageView>,
    operations: Seq<FileOperation>,
) -> Option<StageView>
    decreases operations.len(),
{
    if operations.len() == 0 {
        file
    } else {
        after_operation(after_operations(file, operations.drop_last()), operations.last())
    }
}

/// In any run of operations each of them writes a transaction behind only if the barrier
/// has accepted it: anything else that is written holds no complete frame that commits
/// one, as far as the layout of the log is known. An operation whose transaction is
/// rejected changes nothing behind.
pub proof fn transactions_pass_the_barrier(
    file: Option<StageView>,
    operations: Seq<FileOperation>,
    behind: Seq<u8>,
    i: int,
)
    requires
        0 <= i < operations.len(),
    ensures
        ({
            let before = after_operations(file, operations.take(i));
            let after = after_operations(file, operations.take(i + 1));
            &&& after == after_operation(before, operations[i])
            &&& written(before, operations[i]) matches Some(stage) ==> (stage.commit_pages() is Some
                ==> operations[i].is_accepted())
            &&& is_rejected(before, operations[i]) ==> behind_after(before, behind, operations[i])
                == behind && !vfs::holds_back(after)
        }),
{
    assert(operations.take(i + 1).drop_last() =~= operations.take(i));
}

/// What SQLite sees after an operation: what a plain file would hold, except that a
/// rejected transaction is gone with everything that was held back.
pub proof fn operations_are_seen_as_on_a_plain_file(
    file: Option<StageView>,
    behind: Seq<u8>,
    operation: FileOperation,
)
    ensures
        ({
            let seen = vfs::seen(
                after_operation(file, operation),
                behind_after(file, behind, operation),
            );
            match operation {
                _ if is_rejected(file, operation) => seen == behind,
                FileOperation::Write { offset, data, .. } => seen == wal::write_at(
                    vfs::seen(file, behind),
                    offset,
                    data,
                ),
                FileOperation::Truncate { size } => seen == wal::resize(
                    vfs::seen(file, behind),
                    size,
                ),
                FileOperation::Sync { .. } => seen == vfs::seen(file, behind),
            }
        }),
{
    let after = after_operation(file, operation);
    let now = behind_after(file, behind, operation);
    match operation {
        FileOperation::Write { offset, data, .. } => {
            if is_rejected(file, operation) {
                assert(vfs::seen(after, now) =~= behind);
            } else {
                assert(vfs::seen(after, now) =~= wal::write_at(
                    vfs::seen(file, behind),
                    offset,
                    data,
                ));
            }
        },
        FileOperation::Truncate { size } => {
            truncation_is_seen(file, behind, size);
        },
        FileOperation::Sync { .. } => {
            if is_rejected(file, operation) {
                assert(vfs::seen(after, now) =~= behind);
            } else {
                assert(vfs::seen(after, now) =~= vfs::seen(file, behind));
            }
        },
    }
}

/// The size field of the frame at position `k`.
pub open spec fn frame_commit(frames: Seq<u8>, frame_bytes: nat, k: nat) -> u32 {
    wal::big_endian(frames, (k * frame_bytes + 4) as int)
}

/// There is a last commit if and only if a complete frame has a size field that is
/// not zero. It is the size field of the last such frame.
pub proof fn last_commit_is_the_last_commit_frame(frames: Seq<u8>, layout: WalLayout)
    ensures
        match wal::last_commit(frames, layout.frame_bytes()) {
            None => forall|k: nat|
                (k + 1) * layout.frame_bytes() <= frames.len() ==> #[trigger] frame_commit(
                    frames,
                    layout.frame_bytes(),
                    k,
                ) == 0,
            Some(pages) => pages != 0 && exists|k: nat|
                {
                    &&& (k + 1) * layout.frame_bytes() <= frames.len()
                    &&& #[trigger] frame_commit(frames, layout.frame_bytes(), k) == pages
                    &&& forall|j: nat|
                        j > k && (j + 1) * layout.frame_bytes() <= frames.len()
                            ==> #[trigger] frame_commit(frames, layout.frame_bytes(), j) == 0
                },
        },
    decreases frames.len(),
{
    let n = layout.frame_bytes();
    if frames.len() >= n {
        let rest = frames.skip(n as int);
        last_commit_is_the_last_commit_frame(rest, layout);
        assert forall|k: nat| k > 0 && (k + 1) * n <= frames.len() implies #[trigger] frame_commit(
            frames,
            n,
            k,
        ) == frame_commit(rest, n, (k - 1) as nat) && ((k - 1) + 1) * n <= rest.len() by {
            lemma_shift(n, k);
            let at = (k - 1) * n + 4;
            assert(k * n + 4 == at + n);
            assert(at >= 0);
            assert(at + 4 <= rest.len());
            assert(forall|i: int| at <= i < at + 4 ==> #[trigger] rest[i] == frames[i + n]);
        }
        assert(0 * n == 0);
        assert(1 * n == n);
        match wal::last_commit(rest, n) {
            Some(pages) => {
                let k = choose|k: nat|
                    {
                        &&& (k + 1) * n <= rest.len()
                        &&& #[trigger] frame_commit(rest, n, k) == pages
                        &&& forall|j: nat|
                            j > k && (j + 1) * n <= rest.len() ==> #[trigger] frame_commit(
                                rest,
                                n,
                                j,
                            ) == 0
                    };
                lemma_shift(n, k + 1);
                lemma_shift(n, k + 2);
                assert((k + 2) * n <= frames.len());
                assert(frame_commit(frames, n, k + 1) == frame_commit(rest, n, k));
                assert forall|j: nat|
                    j > k + 1 && (j + 1) * n <= frames.len() implies #[trigger] frame_commit(
                    frames,
                    n,
                    j,
                ) == 0 by {
                    assert(frame_commit(frames, n, j) == frame_commit(rest, n, (j - 1) as nat));
                }
            },
            None => {
                assert forall|j: nat|
                    j > 0 && (j + 1) * n <= frames.len() implies #[trigger] frame_commit(
                    frames,
                    n,
                    j,
                ) == 0 by {
                    assert(frame_commit(frames, n, j) == frame_commit(rest, n, (j - 1) as nat));
                }
                assert(frame_commit(frames, n, 0) == wal::big_endian(frames, 4));
            },
        }
    } else {
        assert forall|k: nat| (k + 1) * n <= frames.len() implies #[trigger] frame_commit(
            frames,
            n,
            k,
        ) == 0 by {
            assert((k + 1) * n >= n) by (nonlinear_arith);
        }
    }
}

/// The frames of a stage are looked for at the offsets of the log where frames
/// begin: a whole number of frames after the header, and as near to the start of
/// the stage as there is one.
pub proof fn frames_are_found_where_they_begin(start: nat, layout: WalLayout)
    ensures
        ({
            let n = layout.frame_bytes();
            let first = start + wal::to_first_frame(start, n);
            &&& first >= wal::WAL_HEADER_BYTES
            &&& (first - wal::WAL_HEADER_BYTES) % n as int == 0
            &&& start > wal::WAL_HEADER_BYTES ==> wal::to_first_frame(start, n) < n
        }),
{
    let n = layout.frame_bytes() as int;
    if start > wal::WAL_HEADER_BYTES {
        let x = start - wal::WAL_HEADER_BYTES;
        vstd::arithmetic::div_mod::lemma_fundamental_div_mod(x, n);
        vstd::arithmetic::div_mod::lemma_mod_bound(x, n);
        if x % n != 0 {
            let q = x / n;
            assert(x + n - x % n == n * (q + 1)) by (nonlinear_arith)
                requires
                    x == n * q + x % n,
            ;
            assert(n * (q + 1) == (q + 1) * n) by (nonlinear_arith);
            vstd::arithmetic::div_mod::lemma_mod_multiples_basic(q + 1, n);
        }
    } else {
        assert(0int % n == 0) by (nonlinear_arith)
            requires
                n > 0,
        ;
    }
}

proof fn lemma_shift(n: nat, k: nat)
    requires
        k > 0,
    ensures
        k * n == (k - 1) * n + n,
        (k + 1) * n == k * n + n,
        (k - 1) * n >= 0,
{
    assert(k * n == (k - 1) * n + n) by (nonlinear_arith);
    assert((k + 1) * n == k * n + n) by (nonlinear_arith);
    assert((k - 1) * n >= 0) by (nonlinear_arith)
        requires
            k > 0,
    ;
}

/// What SQLite answers in the course of a registration.
pub struct RegistryAnswers {
    /// Whether it finds a VFS of the wanted name.
    pub named: bool,
    /// Whether it has a default VFS.
    pub default_found: bool,
    /// What it returns when asked to register.
    pub code: i32,
}

impl RegistryAnswers {
    /// What comes of a state.
    pub open spec fn event(self, state: RegisterState) -> RegisterEvent {
        match state {
            RegisterState::FindName => RegisterEvent::Found(self.named),
            RegisterState::FindDefault => RegisterEvent::Found(self.default_found),
            _ => RegisterEvent::Registered { code: self.code },
        }
    }

    /// The outcome of registering `name`.
    pub open spec fn outcome(self, name: Seq<char>) -> Result<(), RegisterError> {
        if !vfs::is_valid_name(name) {
            Err(RegisterError::InvalidName)
        } else if vfs::counts_as_registered(name, self.named) {
            Err(RegisterError::AlreadyRegistered)
        } else if !self.default_found {
            Err(RegisterError::NoDefaultVfs)
        } else if self.code != SQLITE_OK {
            Err(RegisterError::Register(self.code))
        } else {
            Ok(())
        }
    }
}

/// Whether a registration of `name` goes through `states`.
pub open spec fn is_registration(
    name: Seq<char>,
    answers: RegistryAnswers,
    states: Seq<RegisterState>,
) -> bool {
    &&& states.len() > 0
    &&& states[0] == RegisterState::begun(name)
    &&& forall|i: int|
        0 <= i < states.len() - 1 ==> !(#[trigger] states[i] is Finished) && states[i + 1]
            == states[i].after(answers.event(states[i]))
    &&& states.last() is Finished
}

/// A registration as a whole fails with the first of these: the name is invalid, the
/// name is registered already, there is no default VFS, SQLite refuses. Otherwise it
/// succeeds. SQLite is asked to register only if nothing else stands in the way.
pub proof fn registrations_come_to_their_outcome(
    name: Seq<char>,
    answers: RegistryAnswers,
    states: Seq<RegisterState>,
)
    requires
        is_registration(name, answers, states),
    ensures
        states.last()->outcome == answers.outcome(name),
        forall|i: int|
            0 <= i < states.len() && #[trigger] states[i] is Register ==> vfs::is_valid_name(name)
                && !answers.named && answers.default_found,
{
    if states.len() > 1 {
        assert(!(states[0] is Finished));
        if states.len() > 2 {
            assert(!(states[1] is Finished));
            if states.len() > 3 {
                assert(!(states[2] is Finished));
                if states.len() > 4 {
                    assert(!(states[3] is Finished));
                }
            }
        }
    }
}

/// A name that is registered cannot be registered again, whatever else SQLite
/// answers.
pub proof fn registered_names_are_refused(name: Seq<char>, answers: RegistryAnswers)
    requires
        vfs::counts_as_registered(name, answers.named),
    ensures
        answers.outcome(name) == Err::<(), RegisterError>(RegisterError::AlreadyRegistered),
{
}

/// Once a name has been registered, and as long as SQLite finds it, the name counts
/// as registered and a repeated registration is refused.
pub proof fn repeated_registrations_are_refused(
    name: Seq<char>,
    first: RegistryAnswers,
    second: RegistryAnswers,
)
    requires
        first.outcome(name) is Ok,
        second.named,
    ensures
        vfs::counts_as_registered(name, second.named),
        second.outcome(name) == Err::<(), RegisterError>(RegisterError::AlreadyRegistered),
{
}

} // verus!
