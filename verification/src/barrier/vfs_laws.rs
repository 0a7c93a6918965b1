//! What each operation on a file does, byte by byte of what is held back.

use vstd::prelude::*;

use crate::barrier::vfs::{
    self, ReadState, RegisterError, RegisterEvent, RegisterState, SyncEvent, SyncState,
    Transaction, WriteState,
};
use crate::barrier::wal::{self, StageView};
use crate::barrier::wal_laws;
use crate::text;
use crate::text_laws;

verus! {

/// A file is opened if and only if the file behind was, and a failure is returned as it
/// is. A write-ahead log, and no other file, starts to hold back its writes.
pub proof fn only_logs_hold_back(flags: i32, code: i32, opened: Result<Option<StageView>, i32>)
    requires
        vfs::opens(flags, code, opened),
    ensures
        opened is Ok <==> code == 0,
        opened matches Err(returned) ==> returned == code,
        opened is Ok && flags >= 0 ==> (opened->Ok_0 is Some <==> flags / 0x80000 % 2 == 1),
        opened matches Ok(Some(stage)) ==> stage.bytes.len() == 0 && stage.layout is None,
{
    assert(flags >= 0 ==> (flags & 0x80000 != 0 <==> flags / 0x80000 % 2 == 1)) by (bit_vector);
}

/// Whether `transaction` is all that `stage` holds back.
pub open spec fn is_all_of(transaction: Transaction, stage: StageView) -> bool {
    &&& transaction.wal_offset == stage.start
    &&& transaction.frames@ == stage.bytes
    &&& stage.layout matches Some(layout) && transaction.page_size == layout.page_size
    &&& Some(transaction.database_pages) == stage.commit_pages()
}

/// A file that is no log is written through with the very data.
pub proof fn other_files_are_written_as_they_are(offset: nat, data: Seq<u8>, state: WriteState)
    requires
        vfs::writes(None, offset, data, state),
    ensures
        state matches WriteState::WriteThrough { data: through } && through@ == data,
        vfs::after_write(None, offset, data) is None,
{
}

/// A write to a log that leaves no gap to what is held back succeeds at once and is held
/// back itself.
pub proof fn adjoining_writes_are_held_back(
    stage: StageView,
    offset: nat,
    data: Seq<u8>,
    state: WriteState,
)
    requires
        vfs::writes(Some(stage), offset, data, state),
        stage.bytes.len() == 0 || stage.start <= offset <= stage.start + stage.bytes.len(),
    ensures
        state matches WriteState::Return { code } && code == 0,
        vfs::after_write(Some(stage), offset, data) matches Some(after) && forall|at: int| #[trigger]
            wal_laws::held(after, at) == (if offset <= at < offset + data.len() {
                Some(data[at - offset])
            } else {
                wal_laws::held(stage, at)
            }),
{
    let looked = vfs::with_header(stage, offset, data);
    wal_laws::held_back_writes_replace_their_bytes(looked, offset, data);
    let after = vfs::after_write(Some(stage), offset, data)->Some_0;
    assert forall|at: int| #[trigger] wal_laws::held(after, at) == (if offset <= at < offset
        + data.len() {
        Some(data[at - offset])
    } else {
        wal_laws::held(stage, at)
    }) by {
        assert(wal_laws::held(looked, at) == wal_laws::held(stage, at));
    }
}

/// The layout of a log becomes known by the first header that is written to its
/// beginning, and stays as it is from then on.
pub proof fn layouts_come_from_the_first_header(stage: StageView, offset: nat, data: Seq<u8>)
    ensures
        vfs::after_write(Some(stage), offset, data) matches Some(after) && {
            &&& stage.layout is Some ==> after.layout == stage.layout
            &&& stage.layout is None && offset == 0 ==> after.layout == wal::wal_layout(data)
            &&& stage.layout is None && offset > 0 ==> after.layout is None
        },
{
}

/// A write to a log that leaves a gap to what is held back, or comes before it, is not
/// held back yet. If what is held back commits, as far as the layout is known by then,
/// it stays held back and all of it is put before the barrier; otherwise all of it is
/// flushed and nothing stays. The write itself comes along unchanged.
pub proof fn writes_apart_give_everything_away(
    stage: StageView,
    offset: nat,
    data: Seq<u8>,
    state: WriteState,
)
    requires
        vfs::writes(Some(stage), offset, data, state),
        stage.bytes.len() > 0,
        offset < stage.start || stage.start + stage.bytes.len() < offset,
    ensures
        vfs::after_write(Some(stage), offset, data) matches Some(after) && {
            let known = StageView { layout: after.layout, ..stage };
            if known.commit_pages() is Some {
                &&& state matches WriteState::Publish { transaction, data: rest }
                &&& is_all_of(transaction, known)
                &&& rest@ == data
                &&& after.start == stage.start
                &&& after.bytes == stage.bytes
            } else {
                &&& state matches WriteState::Flush { start, bytes, data: rest }
                &&& start == stage.start
                &&& bytes@ == stage.bytes
                &&& rest@ == data
                &&& after.bytes.len() == 0
            }
        },
{
    let after = vfs::after_write(Some(stage), offset, data)->Some_0;
    let known = StageView { layout: after.layout, ..stage };
    assert(known == vfs::with_header(stage, offset, data));
}

/// Once the barrier has decided, an accepted transaction is flushed in full with the
/// write still to come; a rejected one is written nowhere and the write fails.
pub proof fn writes_follow_the_decision(
    stage: StageView,
    accepted: bool,
    data: Seq<u8>,
    state: WriteState,
)
    requires
        vfs::write_follows(stage, accepted, data, state),
    ensures
        vfs::after_decision(stage, accepted).bytes.len() == 0,
        vfs::after_decision(stage, accepted).layout == stage.layout,
        accepted ==> (state matches WriteState::Flush { start, bytes, data: rest } && start
            == stage.start && bytes@ == stage.bytes && rest@ == data),
        !accepted ==> (state matches WriteState::Return { code } && code == 778),
{
}

/// A write goes on after its flush by being held back alone. If the flush failed, nothing
/// is held back.
pub proof fn flushed_writes_are_held_back_alone(
    stage: StageView,
    code: i32,
    offset: nat,
    data: Seq<u8>,
)
    requires
        stage.bytes.len() == 0,
    ensures
        vfs::after_flush(Some(stage), code, offset, data) matches Some(after) && {
            &&& after.layout == stage.layout
            &&& forall|at: int| #[trigger]
                wal_laws::held(after, at) == (if code == 0 && offset <= at < offset + data.len() {
                    Some(data[at - offset])
                } else {
                    None
                })
        },
{
    wal_laws::held_back_writes_replace_their_bytes(stage, offset, data);
    let after = vfs::after_flush(Some(stage), code, offset, data)->Some_0;
    assert forall|at: int| #[trigger] wal_laws::held(after, at) == (if code == 0 && offset <= at
        < offset + data.len() {
        Some(data[at - offset])
    } else {
        None
    }) by {
        assert(wal_laws::held(stage, at) is None);
    }
}

/// Truncating a log keeps exactly the held-back bytes before the cut. There is nothing to
/// cut of another file.
pub proof fn truncation_cuts_what_is_held(stage: StageView, size: nat)
    ensures
        vfs::truncated(None, size) is None,
        vfs::truncated(Some(stage), size) matches Some(after) && after.layout == stage.layout
            && forall|at: int| #[trigger]
            wal_laws::held(after, at) == (if at < size {
                wal_laws::held(stage, at)
            } else {
                None
            }),
{
    wal_laws::cut_stages_keep_what_lies_before(stage, size);
}

/// Closing a file holds nothing back, and closes the file behind if and only if that was
/// opened.
pub proof fn closing_forgets_what_is_held(file: Option<StageView>, opened: bool, close: bool)
    requires
        vfs::closes(file, opened, close),
    ensures
        file is None,
        opened <==> close,
{
}

/// Where nothing is held back a read goes to the file behind. Otherwise it is served
/// without that if and only if all of its bytes are held back, and then has just them.
pub proof fn reads_are_served_from_what_is_held(
    file: Option<StageView>,
    offset: nat,
    amount: nat,
    state: ReadState,
)
    requires
        vfs::reads(file, offset, amount, state),
        amount > 0,
    ensures
        state is ReadThrough <==> file is None || file->Some_0.bytes.len() == 0,
        state is Served <==> file is Some && forall|at: int|
            offset <= at < offset + amount ==> #[trigger] wal_laws::held(file->Some_0, at) is Some,
        state matches ReadState::Served { data } ==> data@.len() == amount && forall|i: int|
            0 <= i < amount ==> Some(#[trigger] data@[i]) == wal_laws::held(
                file->Some_0,
                offset + i,
            ),
{
    if file is Some {
        let stage = file->Some_0;
        wal_laws::covered_reads_are_held_in_full(stage, offset, amount);
        if stage.bytes.len() == 0 {
            assert(wal_laws::held(stage, offset as int) is None);
        }
    }
}

/// A read that went behind fails if and only if that failed, except that reaching beyond
/// the end is no failure. It then has each byte that is held back, and otherwise what was
/// read behind; the code is returned as it is.
pub proof fn reads_behind_are_merged(
    file: Option<StageView>,
    offset: nat,
    data: Seq<u8>,
    code: i32,
    read: Result<(Seq<u8>, i32), i32>,
)
    requires
        vfs::merges(file, offset, data, code, read),
    ensures
        read is Ok <==> code == 0 || code == 522,
        read matches Err(returned) ==> returned == code,
        read matches Ok((merged, returned)) ==> {
            &&& returned == code
            &&& merged.len() == data.len()
            &&& forall|i: int|
                0 <= i < data.len() ==> #[trigger] merged[i] == (match file {
                    Some(stage) => match wal_laws::held(stage, offset + i) {
                        Some(byte) => byte,
                        None => data[i],
                    },
                    None => data[i],
                })
        },
{
    if file is Some {
        wal_laws::reads_are_overlaid_byte_by_byte(file->Some_0, offset, data);
    }
}

/// The size is that of the file behind or, where more is held back, the offset behind the
/// last byte of that. A failure is returned as it is.
pub proof fn sizes_reach_to_the_last_byte(
    file: Option<StageView>,
    size: i64,
    code: i32,
    sized: Result<i64, i32>,
)
    requires
        vfs::sizes(file, size, code, sized),
    ensures
        sized is Ok <==> code == 0,
        sized matches Err(returned) ==> returned == code,
        sized matches Ok(seen) ==> {
            &&& seen >= size
            &&& file matches Some(stage) ==> forall|at: int| #[trigger]
                wal_laws::held(stage, at) is Some ==> at < seen
            &&& seen == size || file is Some && wal_laws::held(
                file->Some_0,
                seen - 1,
            ) is Some
        },
{
}

/// How a sync begins and what stays held back. Nothing held back: the file behind is
/// synced. A transaction: all of it is put before the barrier and stays. Anything else:
/// all of it is written and nothing stays.
pub proof fn syncs_begin_by_what_is_held(file: Option<StageView>, state: SyncState)
    requires
        vfs::syncs(file, state),
    ensures
        state is Sync <==> file is None || file->Some_0.bytes.len() == 0,
        state is Publish <==> file is Some && file->Some_0.bytes.len() > 0
            && file->Some_0.commit_pages() is Some,
        state matches SyncState::Publish { transaction } ==> is_all_of(transaction, file->Some_0)
            && vfs::after_sync(file) == file,
        state matches SyncState::Write { start, bytes } ==> {
            &&& start == file->Some_0.start
            &&& bytes@ == file->Some_0.bytes
            &&& vfs::after_sync(file) matches Some(after) && after.bytes.len() == 0 && after.layout
                == file->Some_0.layout
        },
        !(state is Return),
        file is None ==> vfs::after_sync(file) is None,
        file matches Some(stage) ==> (stage.bytes.len() == 0 ==> vfs::after_sync(file) == file),
{
}

/// How a sync goes on. Once the barrier has decided nothing stays held back: an accepted
/// transaction is written in full, a rejected one fails the sync and is written nowhere.
/// Once something is written the file behind is synced, unless writing failed, and that
/// failure is returned as it is.
pub proof fn syncs_follow_what_came(stage: StageView, event: SyncEvent, next: SyncState)
    requires
        vfs::sync_follows(Some(stage), event, next),
    ensures
        event == (SyncEvent::Published { accepted: true }) ==> (next matches SyncState::Write {
            start,
            bytes,
        } && start == stage.start && bytes@ == stage.bytes),
        event == (SyncEvent::Published { accepted: false }) ==> (next matches SyncState::Return {
            code,
        } && code == 778),
        event is Published ==> (vfs::after_sync_event(Some(stage), event) matches Some(after)
            && after.bytes.len() == 0 && after.layout == stage.layout),
        event matches SyncEvent::Written { code } ==> {
            &&& code == 0 ==> next is Sync
            &&& code != 0 ==> (next matches SyncState::Return { code: returned } && returned == code)
            &&& vfs::after_sync_event(Some(stage), event) == Some(stage)
        },
{
}

/// A sync expects what came of what it asked for, and nothing once it is over.
pub proof fn syncs_expect_what_they_asked_for(state: SyncState, accepted: bool, code: i32)
    ensures
        vfs::sync_expects(state, SyncEvent::Published { accepted }) <==> state is Publish,
        vfs::sync_expects(state, SyncEvent::Written { code }) <==> state is Write,
{
}

/// A name can be registered if and only if none of its characters is NUL.
pub proof fn valid_names_have_no_nul(name: Seq<char>)
    ensures
        vfs::is_valid_name(name) <==> forall|i: int|
            0 <= i < name.len() ==> (#[trigger] name[i]) as int != 0,
{
    if vfs::is_valid_name(name) {
        assert forall|i: int| 0 <= i < name.len() implies (#[trigger] name[i]) as int != 0 by {
            assert(name.contains(name[i]));
        }
    }
}

/// A name counts as registered if and only if SQLite has found it and none of its characters
/// is NUL.
pub proof fn registered_names_are_found(name: Seq<char>, found: bool)
    ensures
        vfs::counts_as_registered(name, found) <==> found && forall|i: int|
            0 <= i < name.len() ==> (#[trigger] name[i]) as int != 0,
{
    valid_names_have_no_nul(name);
}

/// How a registration goes on: a valid name is looked for; one that is found is refused,
/// and otherwise the default VFS is looked for; without one the registration fails, and with
/// one SQLite is asked, whose refusal is handed on. Nothing else is expected.
pub proof fn registrations_go_on_by_what_was_found(
    name: Seq<char>,
    state: RegisterState,
    found: bool,
    code: i32,
)
    ensures
        vfs::is_valid_name(name) ==> RegisterState::begun(name) is FindName,
        !vfs::is_valid_name(name) ==> RegisterState::begun(name) == (RegisterState::Finished {
            outcome: Err(RegisterError::InvalidName),
        }),
        state.expects(RegisterEvent::Found(found)) <==> state is FindName || state is FindDefault,
        state.expects(RegisterEvent::Registered { code }) <==> state is Register,
        RegisterState::FindName.after(RegisterEvent::Found(true)) == (RegisterState::Finished {
            outcome: Err(RegisterError::AlreadyRegistered),
        }),
        RegisterState::FindName.after(RegisterEvent::Found(false)) is FindDefault,
        RegisterState::FindDefault.after(RegisterEvent::Found(true)) is Register,
        RegisterState::FindDefault.after(RegisterEvent::Found(false)) == (RegisterState::Finished {
            outcome: Err(RegisterError::NoDefaultVfs),
        }),
        code == 0 ==> RegisterState::Register.after(RegisterEvent::Registered { code }) == (
        RegisterState::Finished { outcome: Ok(()) }),
        code != 0 ==> RegisterState::Register.after(RegisterEvent::Registered { code }) == (
        RegisterState::Finished { outcome: Err(RegisterError::Register(code)) }),
{
}

/// What SQLite says about a code is its description. A code that SQLite knows nothing
/// about is described by its number.
pub proof fn unknown_codes_are_described_by_their_number(code: i32, known: Seq<char>)
    ensures
        vfs::described(code, Some(known)) == known,
        text_laws::number_of(
            vfs::described(code, None).skip("sqlite error "@.len() as int),
        ) == code,
{
    let number = text::decimal(code as int);
    assert(("sqlite error "@ + number).skip("sqlite error "@.len() as int) =~= number);
    text_laws::decimals_give_the_number_back(code as int);
}

} // verus!
