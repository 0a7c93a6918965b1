//! What the barrier does with each operation on a file.
//!
//! An operation first says what is to be done with the file behind it; what came of
//! that is handed to the function that goes on with the operation.

use vstd::prelude::*;

use crate::barrier::wal::{self, parse_wal_header, StageOutcome, StageView, WalStage};
use crate::text;

verus! {

pub const SQLITE_OK: i32 = 0;

pub const SQLITE_IOERR_WRITE: i32 = 778;

pub const SQLITE_IOERR_SHORT_READ: i32 = 522;

/// Flag with which SQLite opens a write-ahead log.
pub const SQLITE_OPEN_WAL: i32 = 0x80000;

/// An open file. What is written to a write-ahead log is held back in a stage.
#[derive(Debug)]
pub struct BarrierFile {
    stage: Option<WalStage>,
}

impl View for BarrierFile {
    type V = Option<StageView>;

    closed spec fn view(&self) -> Option<StageView> {
        match self.stage {
            Some(stage) => Some(stage@),
            None => None,
        }
    }
}

/// What is held back ends at an offset that SQLite can use.
pub open spec fn well_formed(file: Option<StageView>) -> bool {
    file matches Some(stage) ==> stage.well_formed()
}

/// Whether anything is held back.
pub open spec fn holds_back(file: Option<StageView>) -> bool {
    file matches Some(stage) && stage.bytes.len() > 0
}

/// The contents that SQLite sees where `behind` are those of the file behind.
pub open spec fn seen(file: Option<StageView>, behind: Seq<u8>) -> Seq<u8> {
    match file {
        Some(stage) => stage.over(behind),
        None => behind,
    }
}

/// A transaction that is held back, as it is put before the barrier.
#[derive(Clone, Debug)]
pub struct Transaction {
    pub wal_offset: u64,
    pub frames: Vec<u8>,
    pub page_size: u32,
    pub database_pages: u32,
}

/// Whether `transaction` is what `stage` holds back, with `pages` of the database after
/// it.
pub open spec fn shows(transaction: Transaction, stage: StageView, pages: u32) -> bool {
    &&& transaction.wal_offset == stage.start
    &&& transaction.frames@ == stage.bytes
    &&& transaction.page_size == (match stage.layout {
        Some(layout) => layout.page_size,
        None => 0u32,
    })
    &&& transaction.database_pages == pages
}

fn show(stage: &WalStage, pages: u32) -> (transaction: Transaction)
    ensures
        shows(transaction, stage@, pages),
{
    let page_size: u32 = match stage.layout() {
        Some(layout) => layout.page_size,
        None => 0,
    };
    let mut frames: Vec<u8> = Vec::new();
    frames.extend_from_slice(stage.bytes().as_slice());
    assert(frames@ =~= stage@.bytes);
    Transaction { wal_offset: stage.start(), frames, page_size, database_pages: pages }
}

/// How a write goes on.
pub enum WriteState {
    /// Write to the file behind and return what that returns.
    WriteThrough { data: Vec<u8> },
    /// Put the transaction before the barrier, then go on with
    /// [`BarrierFile::x_write_published`].
    Publish { transaction: Transaction, data: Vec<u8> },
    /// Write these bytes to the file behind at `start`, then go on with
    /// [`BarrierFile::x_write_flushed`].
    Flush { start: u64, bytes: Vec<u8>, data: Vec<u8> },
    Return { code: i32 },
}

/// How a read goes on.
pub enum ReadState {
    /// Read from the file behind and return what that returns.
    ReadThrough,
    /// Read from the file behind, then go on with [`BarrierFile::x_read_behind`].
    ReadBehind,
    /// These are the bytes.
    Served { data: Vec<u8> },
}

/// How a sync goes on.
pub enum SyncState {
    /// Put the transaction before the barrier.
    Publish { transaction: Transaction },
    /// Write these bytes to the file behind at `start`.
    Write { start: u64, bytes: Vec<u8> },
    /// Sync the file behind and return what that returns.
    Sync,
    Return { code: i32 },
}

/// What came of it.
#[derive(Clone, Copy, Debug)]
pub enum SyncEvent {
    Published { accepted: bool },
    Written { code: i32 },
}

/// Whether `opened` comes of opening a file whose file behind was opened with `code`.
pub open spec fn opens(flags: i32, code: i32, opened: Result<Option<StageView>, i32>) -> bool {
    match opened {
        Ok(file) => code == SQLITE_OK && file == (if flags & SQLITE_OPEN_WAL != 0 {
            Some(StageView::initial())
        } else {
            None
        }),
        Err(returned) => code != SQLITE_OK && returned == code,
    }
}

/// The file once a flush has returned `code` and the write at `offset` that needed it has
/// gone on.
pub open spec fn after_flush(
    file: Option<StageView>,
    code: i32,
    offset: nat,
    data: Seq<u8>,
) -> Option<StageView> {
    if code == SQLITE_OK {
        Some(file->Some_0.with_write(offset, data))
    } else {
        file
    }
}

/// Whether `file` is what closing leaves, and `close` tells whether to close the file
/// behind.
pub open spec fn closes(file: Option<StageView>, opened: bool, close: bool) -> bool {
    file is None && close == opened
}

/// The file without what lies at or beyond `size`.
pub open spec fn truncated(file: Option<StageView>, size: nat) -> Option<StageView> {
    match file {
        Some(stage) => Some(stage.cut(size)),
        None => None,
    }
}

/// Whether `state` is how a read goes on.
pub open spec fn reads(
    file: Option<StageView>,
    offset: nat,
    amount: nat,
    state: ReadState,
) -> bool {
    match file {
        Some(stage) if stage.bytes.len() > 0 => if stage.covers(offset, amount) {
            state matches ReadState::Served { data } && data@ == stage.bytes.subrange(
                offset - stage.start,
                offset + amount - stage.start,
            )
        } else {
            state is ReadBehind
        },
        _ => state is ReadThrough,
    }
}

/// Whether `read` comes of a read after the file behind has returned `data` and `code`.
pub open spec fn merges(
    file: Option<StageView>,
    offset: nat,
    data: Seq<u8>,
    code: i32,
    read: Result<(Seq<u8>, i32), i32>,
) -> bool {
    match read {
        Ok((merged, returned)) => (code == SQLITE_OK || code == SQLITE_IOERR_SHORT_READ)
            && returned == code && merged == (match file {
            Some(stage) => stage.overlaid(offset, data),
            None => data,
        }),
        Err(returned) => code != SQLITE_OK && code != SQLITE_IOERR_SHORT_READ && returned == code,
    }
}

/// Whether `sized` comes of asking for the size where the file behind has returned `size`
/// and `code`.
pub open spec fn sizes(
    file: Option<StageView>,
    size: i64,
    code: i32,
    sized: Result<i64, i32>,
) -> bool {
    match sized {
        Ok(size_seen) => code == SQLITE_OK && size_seen == (match file {
            Some(stage) if stage.bytes.len() > 0 && stage.end() > size => stage.end() as int,
            _ => size as int,
        }),
        Err(returned) => code != SQLITE_OK && returned == code,
    }
}

/// The stage once `data` written at `offset` has been looked at for a header.
pub open spec fn with_header(stage: StageView, offset: nat, data: Seq<u8>) -> StageView {
    if stage.layout is None && offset == 0 && wal::wal_layout(data) is Some {
        StageView { layout: wal::wal_layout(data), ..stage }
    } else {
        stage
    }
}

/// The file after a write at `offset`. Where the write lies apart, it is still to be
/// held back: frames that complete no transaction are given away to be flushed, and a
/// transaction stays held back until the barrier has decided.
pub open spec fn after_write(
    file: Option<StageView>,
    offset: nat,
    data: Seq<u8>,
) -> Option<StageView> {
    match file {
        None => None,
        Some(stage) => {
            let stage = with_header(stage, offset, data);
            Some(
                if stage.adjoins(offset) {
                    stage.with_write(offset, data)
                } else if stage.commit_pages() is Some {
                    stage
                } else {
                    stage.emptied()
                },
            )
        },
    }
}

/// Whether `state` is how a write at `offset` goes on.
pub open spec fn writes(
    file: Option<StageView>,
    offset: nat,
    data: Seq<u8>,
    state: WriteState,
) -> bool {
    match file {
        None => state matches WriteState::WriteThrough { data: through } && through@ == data,
        Some(stage) => if stage.adjoins(offset) {
            state == (WriteState::Return { code: SQLITE_OK })
        } else {
            let stage = with_header(stage, offset, data);
            match stage.commit_pages() {
                Some(pages) => state matches WriteState::Publish { transaction, data: rest }
                    && shows(transaction, stage, pages) && rest@ == data,
                None => flushes(stage, data, state),
            }
        },
    }
}

/// Whether `state` flushes all of `stage`, with `data` still to be held back.
pub open spec fn flushes(stage: StageView, data: Seq<u8>, state: WriteState) -> bool {
    state matches WriteState::Flush { start, bytes, data: rest } && start == stage.start && bytes@
        == stage.bytes && rest@ == data
}

/// Whether `state` is how a write goes on once the barrier has decided about `stage`.
pub open spec fn write_follows(
    stage: StageView,
    accepted: bool,
    data: Seq<u8>,
    state: WriteState,
) -> bool {
    if accepted {
        flushes(stage, data, state)
    } else {
        state == (WriteState::Return { code: SQLITE_IOERR_WRITE })
    }
}

/// What is held back once the barrier has decided: nothing, whatever it decided.
pub open spec fn after_decision(stage: StageView, accepted: bool) -> StageView {
    stage.emptied()
}

/// The file once a sync has begun.
pub open spec fn after_sync(file: Option<StageView>) -> Option<StageView> {
    match file {
        Some(stage) if stage.bytes.len() > 0 && stage.commit_pages() is None => Some(
            stage.emptied(),
        ),
        _ => file,
    }
}

/// Whether `state` is how a sync begins.
pub open spec fn syncs(file: Option<StageView>, state: SyncState) -> bool {
    match file {
        Some(stage) if stage.bytes.len() > 0 => match stage.commit_pages() {
            Some(pages) => state matches SyncState::Publish { transaction } && shows(
                transaction,
                stage,
                pages,
            ),
            None => state matches SyncState::Write { start, bytes } && start == stage.start
                && bytes@ == stage.bytes,
        },
        _ => state is Sync,
    }
}

/// Whether `event` tells what came of `state`.
pub open spec fn sync_expects(state: SyncState, event: SyncEvent) -> bool {
    match state {
        SyncState::Publish { .. } => event is Published,
        SyncState::Write { .. } => event is Written,
        _ => false,
    }
}

/// The file after `event`: once the barrier has decided, nothing is held back.
pub open spec fn after_sync_event(
    file: Option<StageView>,
    event: SyncEvent,
) -> Option<StageView> {
    match (file, event) {
        (Some(stage), SyncEvent::Published { .. }) => Some(stage.emptied()),
        _ => file,
    }
}

/// Whether `next` is how a sync goes on after `event`.
pub open spec fn sync_follows(
    file: Option<StageView>,
    event: SyncEvent,
    next: SyncState,
) -> bool {
    match event {
        SyncEvent::Published { accepted } => if accepted {
            match file {
                Some(stage) => next matches SyncState::Write { start, bytes } && start
                    == stage.start && bytes@ == stage.bytes,
                None => next is Sync,
            }
        } else {
            next == (SyncState::Return { code: SQLITE_IOERR_WRITE })
        },
        SyncEvent::Written { code } => if code == SQLITE_OK {
            next is Sync
        } else {
            next == (SyncState::Return { code })
        },
    }
}

impl BarrierFile {
    /// Opens a file whose file behind was opened with `code`.
    pub fn x_open(flags: i32, code: i32) -> (opened: Result<BarrierFile, i32>)
        ensures
            opens(
                flags,
                code,
                match opened {
                    Ok(file) => Ok(file@),
                    Err(returned) => Err(returned),
                },
            ),
            opened matches Ok(file) ==> well_formed(file@),
    {
        if code != SQLITE_OK {
            return Err(code);
        }
        if flags & SQLITE_OPEN_WAL != 0 {
            Ok(BarrierFile { stage: Some(WalStage::default()) })
        } else {
            Ok(BarrierFile { stage: None })
        }
    }

    /// Whether this is a write-ahead log, whose writes are held back.
    pub fn is_log(&self) -> (log: bool)
        ensures
            log == (self@ is Some),
    {
        self.stage.is_some()
    }

    /// Drops what is held back. Tells whether the file behind is to be closed, which
    /// it is if it was ever opened.
    pub fn x_close(&mut self, opened: bool) -> (close: bool)
        ensures
            closes(final(self)@, opened, close),
    {
        self.stage = None;
        opened
    }

    /// Writes `data` at `offset`. In a write-ahead log the write is held back; what
    /// was held back before is flushed if the write lies apart from it. A transaction
    /// among that is put before the barrier first.
    pub fn x_write(&mut self, offset: u64, data: Vec<u8>) -> (state: WriteState)
        requires
            well_formed(old(self)@),
            offset + data@.len() <= i64::MAX,
        ensures
            final(self)@ == after_write(old(self)@, offset as nat, data@),
            writes(old(self)@, offset as nat, data@, state),
            well_formed(final(self)@),
    {
        match &mut self.stage {
            None => WriteState::WriteThrough { data },
            Some(stage) => {
                if stage.layout().is_none() && offset == 0 {
                    match parse_wal_header(data.as_slice()) {
                        Some(layout) => {
                            stage.set_layout(layout);
                        },
                        None => {},
                    }
                }
                match stage.accept(offset, data.as_slice()) {
                    StageOutcome::Buffered => WriteState::Return { code: SQLITE_OK },
                    StageOutcome::Apart => match stage.commit_pages() {
                        Some(pages) => WriteState::Publish {
                            transaction: show(stage, pages),
                            data,
                        },
                        None => {
                            let (start, bytes) = stage.take();
                            WriteState::Flush { start, bytes, data }
                        },
                    },
                }
            },
        }
    }

    /// Goes on with a write after the barrier has decided about the transaction that
    /// was held back. One that it accepted is flushed; one that it rejected is dropped,
    /// and the write fails.
    pub fn x_write_published(&mut self, accepted: bool, data: Vec<u8>) -> (state: WriteState)
        requires
            well_formed(old(self)@),
            old(self)@ is Some,
        ensures
            final(self)@ == Some(after_decision(old(self)@->Some_0, accepted)),
            write_follows(old(self)@->Some_0, accepted, data@, state),
            well_formed(final(self)@),
    {
        match &mut self.stage {
            None => WriteState::Return { code: SQLITE_IOERR_WRITE },
            Some(stage) => {
                let (start, bytes) = stage.take();
                if accepted {
                    WriteState::Flush { start, bytes, data }
                } else {
                    WriteState::Return { code: SQLITE_IOERR_WRITE }
                }
            },
        }
    }

    /// Goes on with a write after the flush that it needed has returned `code`.
    pub fn x_write_flushed(&mut self, code: i32, offset: u64, data: Vec<u8>) -> (returned: i32)
        requires
            well_formed(old(self)@),
            old(self)@ is Some,
            old(self)@->Some_0.bytes.len() == 0,
            offset + data@.len() <= i64::MAX,
        ensures
            returned == code,
            final(self)@ == after_flush(old(self)@, code, offset as nat, data@),
            well_formed(final(self)@),
    {
        if code != SQLITE_OK {
            return code;
        }
        match &mut self.stage {
            None => {},
            Some(stage) => {
                let _ = stage.accept(offset, data.as_slice());
            },
        }
        SQLITE_OK
    }

    /// Reads `amount` bytes at `offset`, from what is held back if that has them all.
    pub fn x_read(&self, offset: u64, amount: usize) -> (state: ReadState)
        requires
            well_formed(self@),
            offset + amount <= i64::MAX,
        ensures
            reads(self@, offset as nat, amount as nat, state),
    {
        match &self.stage {
            None => ReadState::ReadThrough,
            Some(stage) => {
                if stage.is_empty() {
                    return ReadState::ReadThrough;
                }
                let mut data: Vec<u8> = Vec::new();
                data.resize(amount, 0);
                if stage.read_overlay(offset, &mut data) {
                    assert(data@ =~= stage@.bytes.subrange(
                        offset - stage@.start,
                        offset + amount - stage@.start,
                    ));
                    ReadState::Served { data }
                } else {
                    ReadState::ReadBehind
                }
            },
        }
    }

    /// Goes on with a read after the file behind has returned `data` and `code`, and
    /// gives the bytes with the code to return. A read that reaches beyond the end of
    /// the file behind still returns that it was short.
    pub fn x_read_behind(&self, offset: u64, data: Vec<u8>, code: i32) -> (read: Result<
        (Vec<u8>, i32),
        i32,
    >)
        requires
            well_formed(self@),
            offset + data@.len() <= i64::MAX,
        ensures
            merges(
                self@,
                offset as nat,
                data@,
                code,
                match read {
                    Ok((merged, returned)) => Ok((merged@, returned)),
                    Err(returned) => Err(returned),
                },
            ),
    {
        if code != SQLITE_OK && code != SQLITE_IOERR_SHORT_READ {
            return Err(code);
        }
        let mut merged = data;
        match &self.stage {
            Some(stage) => {
                let _ = stage.read_overlay(offset, &mut merged);
            },
            None => {},
        }
        Ok((merged, code))
    }

    /// Drops what is held back at or beyond `size`. The file behind is truncated
    /// after that.
    pub fn x_truncate(&mut self, size: u64)
        requires
            well_formed(old(self)@),
        ensures
            final(self)@ == truncated(old(self)@, size as nat),
            well_formed(final(self)@),
    {
        match &mut self.stage {
            Some(stage) => {
                stage.discard_from(size);
            },
            None => {},
        }
    }

    /// Begins to sync. A transaction that is held back is put before the barrier;
    /// frames that complete none are flushed.
    pub fn x_sync(&mut self) -> (state: SyncState)
        requires
            well_formed(old(self)@),
        ensures
            final(self)@ == after_sync(old(self)@),
            syncs(old(self)@, state),
            well_formed(final(self)@),
    {
        match &mut self.stage {
            None => SyncState::Sync,
            Some(stage) => {
                if stage.is_empty() {
                    return SyncState::Sync;
                }
                match stage.commit_pages() {
                    Some(pages) => SyncState::Publish { transaction: show(stage, pages) },
                    None => {
                        let (start, bytes) = stage.take();
                        SyncState::Write { start, bytes }
                    },
                }
            },
        }
    }

    /// Goes on with a sync. A transaction that the barrier accepted is written; one
    /// that it rejected is dropped.
    pub fn x_sync_next(&mut self, state: SyncState, event: SyncEvent) -> (next: SyncState)
        requires
            well_formed(old(self)@),
            sync_expects(state, event),
        ensures
            final(self)@ == after_sync_event(old(self)@, event),
            sync_follows(old(self)@, event, next),
            well_formed(final(self)@),
    {
        match event {
            SyncEvent::Published { accepted } => match &mut self.stage {
                None => if accepted {
                    SyncState::Sync
                } else {
                    SyncState::Return { code: SQLITE_IOERR_WRITE }
                },
                Some(stage) => {
                    let (start, bytes) = stage.take();
                    if accepted {
                        SyncState::Write { start, bytes }
                    } else {
                        SyncState::Return { code: SQLITE_IOERR_WRITE }
                    }
                },
            },
            SyncEvent::Written { code } => if code == SQLITE_OK {
                SyncState::Sync
            } else {
                SyncState::Return { code }
            },
        }
    }

    /// The size of the file where the file behind has returned `size` and `code`.
    pub fn x_file_size(&self, size: i64, code: i32) -> (sized: Result<i64, i32>)
        requires
            well_formed(self@),
        ensures
            sizes(self@, size, code, sized),
    {
        if code != SQLITE_OK {
            return Err(code);
        }
        match &self.stage {
            Some(stage) => {
                if !stage.is_empty() {
                    let end: i64 = stage.end() as i64;
                    if end > size {
                        return Ok(end);
                    }
                }
                Ok(size)
            },
            None => Ok(size),
        }
    }
}

/// Why a VFS is not registered.
#[derive(Clone, Copy, Debug, PartialEq, Eq, Structural)]
pub enum RegisterError {
    /// The name holds a NUL character.
    InvalidName,
    AlreadyRegistered,
    NoDefaultVfs,
    /// SQLite refused the registration with this code.
    Register(i32),
}

/// How a registration goes on.
#[derive(Clone, Copy, Debug, PartialEq, Eq)]
pub enum RegisterState {
    /// Look for a VFS of the wanted name.
    FindName,
    /// Look for the default VFS.
    FindDefault,
    /// Register a VFS of the wanted name in front of the default one.
    Register,
    Finished { outcome: Result<(), RegisterError> },
}

/// What came of it.
#[derive(Clone, Copy, Debug, PartialEq, Eq, Structural)]
pub enum RegisterEvent {
    Found(bool),
    Registered { code: i32 },
}

/// Whether `name` can be passed to SQLite: no character of it is NUL.
pub open spec fn is_valid_name(name: Seq<char>) -> bool {
    !name.contains('\0')
}

fn has_no_nul(name: &str) -> (valid: bool)
    ensures
        valid == is_valid_name(name@),
{
    let size: usize = name.unicode_len();
    let mut i: usize = 0;
    while i < size
        invariant
            i <= size,
            size == name@.len(),
            forall|j: int| 0 <= j < i ==> name@[j] != '\0',
        decreases size - i,
    {
        if name.get_char(i) == '\0' {
            assert(name@[i as int] == '\0');
            return false;
        }
        i += 1;
    }
    true
}

/// Begins to register a VFS.
pub fn register(name: &str) -> (state: RegisterState)
    ensures
        state == RegisterState::begun(name@),
{
    if has_no_nul(name) {
        RegisterState::FindName
    } else {
        RegisterState::Finished { outcome: Err(RegisterError::InvalidName) }
    }
}

impl RegisterState {
    /// How the registration of a name begins.
    pub open spec fn begun(name: Seq<char>) -> RegisterState {
        if is_valid_name(name) {
            RegisterState::FindName
        } else {
            RegisterState::Finished { outcome: Err(RegisterError::InvalidName) }
        }
    }

    /// Whether `event` tells what came of this state.
    pub open spec fn expects(self, event: RegisterEvent) -> bool {
        match self {
            RegisterState::FindName => event is Found,
            RegisterState::FindDefault => event is Found,
            RegisterState::Register => event is Registered,
            RegisterState::Finished { .. } => false,
        }
    }

    /// How a registration goes on after `event`.
    pub open spec fn after(self, event: RegisterEvent) -> RegisterState {
        match (self, event) {
            (RegisterState::FindName, RegisterEvent::Found(found)) => if found {
                RegisterState::Finished { outcome: Err(RegisterError::AlreadyRegistered) }
            } else {
                RegisterState::FindDefault
            },
            (RegisterState::FindDefault, RegisterEvent::Found(found)) => if found {
                RegisterState::Register
            } else {
                RegisterState::Finished { outcome: Err(RegisterError::NoDefaultVfs) }
            },
            (RegisterState::Register, RegisterEvent::Registered { code }) => {
                RegisterState::Finished {
                    outcome: if code == SQLITE_OK {
                        Ok(())
                    } else {
                        Err(RegisterError::Register(code))
                    },
                }
            },
            _ => self,
        }
    }
}

/// Goes on with a registration.
pub fn register_next(state: RegisterState, event: RegisterEvent) -> (next: RegisterState)
    requires
        state.expects(event),
    ensures
        next == state.after(event),
{
    match (state, event) {
        (RegisterState::FindName, RegisterEvent::Found(found)) => if found {
            RegisterState::Finished { outcome: Err(RegisterError::AlreadyRegistered) }
        } else {
            RegisterState::FindDefault
        },
        (RegisterState::FindDefault, RegisterEvent::Found(found)) => if found {
            RegisterState::Register
        } else {
            RegisterState::Finished { outcome: Err(RegisterError::NoDefaultVfs) }
        },
        (RegisterState::Register, RegisterEvent::Registered { code }) => if code == SQLITE_OK {
            RegisterState::Finished { outcome: Ok(()) }
        } else {
            RegisterState::Finished { outcome: Err(RegisterError::Register(code)) }
        },
        _ => state,
    }
}

/// Whether a VFS of the given name counts as registered where SQLite has `found` it
/// or not.
pub open spec fn counts_as_registered(name: Seq<char>, found: bool) -> bool {
    is_valid_name(name) && found
}

/// Whether a VFS of the given name is registered, where `found` tells whether SQLite
/// knows it. No VFS has a name with a NUL character.
pub fn is_registered(name: &str, found: bool) -> (registered: bool)
    ensures
        registered == counts_as_registered(name@, found),
{
    has_no_nul(name) && found
}

/// The description of a result code, where `known` is what SQLite says about it.
pub open spec fn described(code: i32, known: Option<Seq<char>>) -> Seq<char> {
    match known {
        Some(known) => known,
        None => "sqlite error "@ + text::decimal(code as int),
    }
}

/// What a result code means, where `known` is what SQLite says about it.
pub fn describe_error(code: i32, known: Option<String>) -> (description: String)
    ensures
        description@ == described(code, text::opt_text(known)),
{
    match known {
        Some(known) => known,
        None => {
            let mut description = "sqlite error ".to_owned();
            description.append(text::decimal_text(code as i64).as_str());
            description
        },
    }
}

} // verus!
