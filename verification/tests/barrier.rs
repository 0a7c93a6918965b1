use kuberic::barrier::vfs::{
    describe_error, is_registered, register, register_next, BarrierFile, ReadState, RegisterError,
    RegisterEvent, RegisterState, SyncEvent, SyncState, Transaction, WriteState,
    SQLITE_IOERR_SHORT_READ, SQLITE_IOERR_WRITE, SQLITE_OK, SQLITE_OPEN_WAL,
};
use kuberic::barrier::wal::{parse_wal_header, StageOutcome, WalLayout, WalStage};

const PAGE: u32 = 512;

fn header(magic: u32, page_size: u32) -> Vec<u8> {
    let mut header = vec![0u8; 32];
    header[0..4].copy_from_slice(&magic.to_be_bytes());
    header[8..12].copy_from_slice(&page_size.to_be_bytes());
    header
}

fn frame(page: u32, pages_after_commit: u32) -> Vec<u8> {
    let mut frame = vec![0u8; 24 + PAGE as usize];
    frame[0..4].copy_from_slice(&page.to_be_bytes());
    frame[4..8].copy_from_slice(&pages_after_commit.to_be_bytes());
    frame
}

/// Offset, frames, page size and database pages of a transaction.
type Shown = (u64, Vec<u8>, u32, u32);

fn shown(transaction: &Transaction) -> Shown {
    (
        transaction.wal_offset,
        transaction.frames.clone(),
        transaction.page_size,
        transaction.database_pages,
    )
}

/// A file together with the file behind it.
struct Disk {
    file: BarrierFile,
    behind: Vec<u8>,
}

impl Disk {
    fn wal() -> Disk {
        Disk {
            file: BarrierFile::x_open(SQLITE_OPEN_WAL, SQLITE_OK).unwrap(),
            behind: Vec::new(),
        }
    }

    fn put(&mut self, offset: u64, data: &[u8]) {
        let end = offset as usize + data.len();
        if self.behind.len() < end {
            self.behind.resize(end, 0);
        }
        self.behind[offset as usize..end].copy_from_slice(data);
    }

    /// Writes where the barrier is not to be asked.
    fn write(&mut self, offset: u64, data: &[u8]) -> i32 {
        let (code, shown) = self.write_before(true, offset, data);
        assert_eq!(shown, None);
        code
    }

    /// Writes with a barrier that accepts or rejects, and tells what it was shown.
    fn write_before(&mut self, accepted: bool, offset: u64, data: &[u8]) -> (i32, Option<Shown>) {
        let mut asked = None;
        let mut state = self.file.x_write(offset, data.to_vec());
        loop {
            state = match state {
                WriteState::Return { code } => return (code, asked),
                WriteState::WriteThrough { data } => {
                    self.put(offset, &data);
                    return (SQLITE_OK, asked);
                }
                WriteState::Publish { transaction, data } => {
                    assert!(asked.is_none());
                    asked = Some(shown(&transaction));
                    self.file.x_write_published(accepted, data)
                }
                WriteState::Flush { start, bytes, data } => {
                    self.put(start, &bytes);
                    let code = self.file.x_write_flushed(SQLITE_OK, offset, data);
                    return (code, asked);
                }
            };
        }
    }

    fn read_behind(&self, offset: u64, amount: usize) -> (Vec<u8>, i32) {
        let mut data = vec![0u8; amount];
        let mut code = SQLITE_OK;
        for (i, byte) in data.iter_mut().enumerate() {
            match self.behind.get(offset as usize + i) {
                Some(value) => *byte = *value,
                None => code = SQLITE_IOERR_SHORT_READ,
            }
        }
        (data, code)
    }

    fn read(&self, offset: u64, amount: usize) -> Vec<u8> {
        match self.file.x_read(offset, amount) {
            ReadState::Served { data } => data,
            ReadState::ReadThrough => self.read_behind(offset, amount).0,
            ReadState::ReadBehind => {
                let (data, code) = self.read_behind(offset, amount);
                let (data, returned) = self.file.x_read_behind(offset, data, code).unwrap();
                assert_eq!(returned, code);
                data
            }
        }
    }

    fn size(&self) -> i64 {
        self.file
            .x_file_size(self.behind.len() as i64, SQLITE_OK)
            .unwrap()
    }

    fn truncate(&mut self, size: u64) {
        self.file.x_truncate(size);
        self.behind.resize(size as usize, 0);
    }

    /// Syncs with a barrier that accepts or rejects, and tells what it was shown.
    fn sync(&mut self, accepted: bool) -> (i32, Option<Shown>) {
        let mut asked = None;
        let mut state = self.file.x_sync();
        loop {
            let event = match &state {
                SyncState::Sync => return (SQLITE_OK, asked),
                SyncState::Return { code } => return (*code, asked),
                SyncState::Publish { transaction } => {
                    asked = Some(shown(transaction));
                    SyncEvent::Published { accepted }
                }
                SyncState::Write { start, bytes } => {
                    let (start, bytes) = (*start, bytes.clone());
                    self.put(start, &bytes);
                    SyncEvent::Written { code: SQLITE_OK }
                }
            };
            state = self.file.x_sync_next(state, event);
        }
    }
}

/// A log that begins with its header and one committed transaction.
fn begun() -> (Disk, Vec<u8>) {
    let mut disk = Disk::wal();
    let mut log = header(0x377f0682, PAGE);
    log.extend(frame(1, 0));
    log.extend(frame(2, 2));
    assert_eq!(disk.write(0, &log[..32]), SQLITE_OK);
    assert_eq!(disk.write(32, &log[32..56]), SQLITE_OK);
    assert_eq!(disk.write(56, &log[56..]), SQLITE_OK);
    (disk, log)
}

#[test]
fn codes_and_flags_are_those_of_sqlite() {
    assert_eq!(SQLITE_OK, libsqlite3_sys::SQLITE_OK);
    assert_eq!(SQLITE_IOERR_WRITE, libsqlite3_sys::SQLITE_IOERR_WRITE);
    assert_eq!(
        SQLITE_IOERR_SHORT_READ,
        libsqlite3_sys::SQLITE_IOERR_SHORT_READ
    );
    assert_eq!(SQLITE_OPEN_WAL, libsqlite3_sys::SQLITE_OPEN_WAL);
}

#[test]
fn an_accepted_transaction_is_written() {
    let (mut disk, log) = begun();
    assert!(disk.behind.is_empty());
    assert_eq!(disk.read(0, log.len()), log);
    assert_eq!(disk.size(), log.len() as i64);
    let (code, shown) = disk.sync(true);
    assert_eq!(code, SQLITE_OK);
    assert_eq!(shown, Some((0, log.clone(), PAGE, 2)));
    assert_eq!(disk.behind, log);
    assert_eq!(disk.read(0, log.len()), log);
}

#[test]
fn a_rejected_transaction_leaves_no_trace() {
    let (mut disk, log) = begun();
    disk.sync(true);
    let end = log.len() as u64;
    disk.write(end, &frame(1, 2));
    assert_eq!(disk.size(), (log.len() + 24 + PAGE as usize) as i64);
    let (code, shown) = disk.sync(false);
    assert_eq!(code, SQLITE_IOERR_WRITE);
    assert_eq!(shown, Some((end, frame(1, 2), PAGE, 2)));
    assert_eq!(disk.behind, log);
    assert_eq!(disk.size(), log.len() as i64);
}

#[test]
fn an_incomplete_transaction_is_flushed_without_the_barrier() {
    let (mut disk, mut log) = begun();
    disk.sync(true);
    disk.write(log.len() as u64, &frame(3, 0));
    let (code, shown) = disk.sync(false);
    assert_eq!(code, SQLITE_OK);
    assert_eq!(shown, None);
    log.extend(frame(3, 0));
    assert_eq!(disk.behind, log);
}

#[test]
fn a_sync_with_nothing_held_back_goes_through() {
    let (mut disk, _) = begun();
    disk.sync(true);
    let (code, shown) = disk.sync(false);
    assert_eq!(code, SQLITE_OK);
    assert_eq!(shown, None);
}

#[test]
fn a_failed_write_of_an_accepted_transaction_is_returned() {
    let (mut disk, _) = begun();
    let state = disk.file.x_sync();
    let state = disk
        .file
        .x_sync_next(state, SyncEvent::Published { accepted: true });
    assert!(matches!(state, SyncState::Write { start: 0, .. }));
    let state = disk.file.x_sync_next(state, SyncEvent::Written { code: 13 });
    assert!(matches!(state, SyncState::Return { code: 13 }));
}

#[test]
fn reads_merge_what_is_held_back() {
    let (mut disk, log) = begun();
    disk.sync(true);
    let end = log.len() as u64;
    disk.write(end, &frame(9, 2));
    let around = disk.read(end - 10, 30);
    assert_eq!(&around[..10], &log[log.len() - 10..]);
    assert_eq!(&around[10..], &frame(9, 2)[..20]);
    let beyond = disk.read(end, 24 + PAGE as usize + 5);
    assert_eq!(&beyond[..24 + PAGE as usize], &frame(9, 2)[..]);
    assert_eq!(&beyond[24 + PAGE as usize..], &[0u8; 5]);
    assert_eq!(disk.file.x_read_behind(0, vec![0u8; 4], 10), Err(10));
    assert_eq!(
        disk.file
            .x_read_behind(0, vec![7u8; 4], SQLITE_IOERR_SHORT_READ),
        Ok((vec![7u8; 4], SQLITE_IOERR_SHORT_READ))
    );
}

#[test]
fn overlapping_writes_replace_what_is_held_back() {
    let mut disk = Disk::wal();
    disk.write(100, b"abcdef");
    disk.write(102, b"XY");
    disk.write(105, b"ZZZ");
    assert_eq!(disk.read(100, 8), b"abXYeZZZ");
    assert_eq!(disk.size(), 108);
    assert!(disk.behind.is_empty());
}

#[test]
fn writes_apart_flush_what_is_held_back() {
    let mut disk = Disk::wal();
    disk.write(100, b"abc");
    disk.write(200, b"def");
    assert_eq!(&disk.behind[100..103], b"abc");
    assert_eq!(disk.behind.len(), 103);
    assert_eq!(disk.read(200, 3), b"def");
    disk.write(50, b"ghi");
    assert_eq!(&disk.behind[200..203], b"def");
    assert_eq!(disk.read(50, 3), b"ghi");

    let mut disk = Disk::wal();
    disk.write(100, b"abc");
    let data = match disk.file.x_write(200, b"def".to_vec()) {
        WriteState::Flush { start, bytes, data } => {
            assert_eq!((start, &bytes[..]), (100, &b"abc"[..]));
            data
        }
        _ => panic!("the write lies apart"),
    };
    assert_eq!(disk.file.x_write_flushed(13, 200, data), 13);
    assert_eq!(disk.size(), 0);
}

#[test]
fn writes_apart_from_a_transaction_ask_the_barrier() {
    let far = 100_000;
    let (mut disk, log) = begun();
    let (code, shown) = disk.write_before(true, far, b"def");
    assert_eq!(code, SQLITE_OK);
    assert_eq!(shown, Some((0, log.clone(), PAGE, 2)));
    assert_eq!(disk.behind, log);
    assert_eq!(disk.read(far, 3), b"def");
    assert_eq!(disk.size(), far as i64 + 3);

    let (mut disk, log) = begun();
    let (code, shown) = disk.write_before(false, far, b"def");
    assert_eq!(code, SQLITE_IOERR_WRITE);
    assert_eq!(shown, Some((0, log, PAGE, 2)));
    assert!(disk.behind.is_empty());
    assert_eq!(disk.size(), 0);
    assert_eq!(disk.sync(true), (SQLITE_OK, None));
    assert!(disk.behind.is_empty());
}

#[test]
fn a_late_header_tells_what_commits() {
    let mut disk = Disk::wal();
    disk.write(32, &frame(1, 7));
    let (code, shown) = disk.write_before(false, 0, &header(0x377f0683, PAGE));
    assert_eq!(code, SQLITE_IOERR_WRITE);
    assert_eq!(shown, Some((32, frame(1, 7), PAGE, 7)));
    assert!(disk.behind.is_empty());
}

#[test]
fn truncation_cuts_what_is_held_back() {
    let mut disk = Disk::wal();
    disk.write(10, b"abcdef");
    disk.truncate(13);
    assert_eq!(disk.size(), 13);
    assert_eq!(disk.read(10, 5), b"abc\0\0");
    disk.truncate(20);
    assert_eq!(disk.size(), 20);
    disk.truncate(5);
    assert_eq!(disk.size(), 5);
    assert_eq!(disk.read(10, 3), b"\0\0\0");
}

#[test]
fn closing_drops_what_is_held_back() {
    let (mut disk, _) = begun();
    assert!(disk.file.x_close(true));
    assert_eq!(disk.size(), 0);
    assert!(disk.behind.is_empty());
    assert!(!disk.file.x_close(false));
}

#[test]
fn other_files_are_written_through() {
    let mut file = BarrierFile::x_open(0x100, SQLITE_OK).unwrap();
    assert!(!file.is_log());
    assert!(Disk::wal().file.is_log());
    assert!(matches!(
        file.x_write(0, b"page".to_vec()),
        WriteState::WriteThrough { .. }
    ));
    assert!(matches!(file.x_read(0, 4), ReadState::ReadThrough));
    assert!(matches!(file.x_sync(), SyncState::Sync));
    assert_eq!(file.x_file_size(4, SQLITE_OK), Ok(4));
    assert_eq!(file.x_file_size(4, 10), Err(10));
    assert_eq!(BarrierFile::x_open(SQLITE_OPEN_WAL, 14).unwrap_err(), 14);
}

#[test]
fn headers_are_recognised_by_their_magic() {
    for magic in [0x377f0682, 0x377f0683] {
        assert_eq!(
            parse_wal_header(&header(magic, 4096)),
            Some(WalLayout { page_size: 4096 })
        );
    }
    assert_eq!(parse_wal_header(&header(0x377f0684, 4096)), None);
    assert_eq!(parse_wal_header(&header(0x377f0682, 4096)[..31]), None);
}

#[test]
fn commits_are_found_at_frame_boundaries() {
    let mut stage = WalStage::default();
    assert!(stage.is_empty());
    assert_eq!(stage.accept(32, &frame(1, 7)), StageOutcome::Buffered);
    assert_eq!(stage.commit_pages(), None);
    stage.set_layout(WalLayout { page_size: PAGE });
    assert_eq!(stage.commit_pages(), Some(7));
    let end = stage.end();
    assert_eq!(stage.accept(end, &frame(2, 9)), StageOutcome::Buffered);
    assert_eq!(stage.commit_pages(), Some(9));
    let end = stage.end();
    assert_eq!(stage.accept(end, &frame(3, 0)), StageOutcome::Buffered);
    assert_eq!(stage.commit_pages(), Some(9));
    assert_eq!(stage.accept(10, b"x"), StageOutcome::Apart);
    let (start, bytes) = stage.take();
    assert_eq!(start, 32);
    assert_eq!(bytes.len(), 3 * (24 + PAGE as usize));
    assert!(stage.is_empty());

    let mut rest = vec![0xffu8; 10];
    rest.extend(frame(4, 5));
    let second = 32 + 24 + PAGE as u64;
    assert_eq!(stage.accept(second - 10, &rest), StageOutcome::Buffered);
    assert_eq!(stage.commit_pages(), Some(5));
    stage.discard_from(second + 24);
    assert_eq!(stage.commit_pages(), None);
}

#[test]
fn registration_fails_with_the_first_obstacle() {
    assert_eq!(
        register("a\0b"),
        RegisterState::Finished {
            outcome: Err(RegisterError::InvalidName)
        }
    );
    let state = register("barrier");
    assert_eq!(state, RegisterState::FindName);
    assert_eq!(
        register_next(state, RegisterEvent::Found(true)),
        RegisterState::Finished {
            outcome: Err(RegisterError::AlreadyRegistered)
        }
    );
    let state = register_next(state, RegisterEvent::Found(false));
    assert_eq!(
        register_next(state, RegisterEvent::Found(false)),
        RegisterState::Finished {
            outcome: Err(RegisterError::NoDefaultVfs)
        }
    );
    let state = register_next(state, RegisterEvent::Found(true));
    assert_eq!(
        register_next(state, RegisterEvent::Registered { code: 21 }),
        RegisterState::Finished {
            outcome: Err(RegisterError::Register(21))
        }
    );
    assert_eq!(
        register_next(state, RegisterEvent::Registered { code: SQLITE_OK }),
        RegisterState::Finished { outcome: Ok(()) }
    );
    assert_eq!(
        register_next(register("barrier"), RegisterEvent::Found(true)),
        RegisterState::Finished {
            outcome: Err(RegisterError::AlreadyRegistered)
        }
    );
    assert!(is_registered("barrier", true));
    assert!(!is_registered("barrier", false));
    assert!(!is_registered("a\0b", true));
}

#[test]
fn errors_are_described_by_sqlite_or_by_their_code() {
    assert_eq!(
        describe_error(14, Some("unable to open database file".to_string())),
        "unable to open database file"
    );
    assert_eq!(describe_error(-7, None), "sqlite error -7");
    assert_eq!(describe_error(2147483647, None), "sqlite error 2147483647");
}
