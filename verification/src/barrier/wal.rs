//! The part of a write-ahead log that is held back.

use vstd::prelude::*;

verus! {

/// Bytes of the header of a write-ahead log.
pub const WAL_HEADER_BYTES: u64 = 32;

/// Bytes of the header of each frame.
pub const FRAME_HEADER_BYTES: u64 = 24;

/// Magic number of a log whose checksums are little-endian.
pub const WAL_MAGIC_LITTLE: u32 = 0x377f0682;

/// Magic number of a log whose checksums are big-endian.
pub const WAL_MAGIC_BIG: u32 = 0x377f0683;

/// What the header of a write-ahead log says about its frames.
#[derive(Clone, Copy, Debug, PartialEq, Eq, Structural)]
pub struct WalLayout {
    pub page_size: u32,
}

impl WalLayout {
    /// Bytes of a frame: its header and a page.
    pub open spec fn frame_bytes(self) -> nat {
        (FRAME_HEADER_BYTES + self.page_size) as nat
    }
}

/// The big-endian number in the four bytes of `data` at `i`.
pub open spec fn big_endian(data: Seq<u8>, i: int) -> u32 {
    (data[i] * 0x1000000 + data[i + 1] * 0x10000 + data[i + 2] * 0x100 + data[i + 3]) as u32
}

fn read_big_endian(data: &[u8], i: usize) -> (number: u32)
    requires
        i + 4 <= data@.len(),
    ensures
        number == big_endian(data@, i as int),
{
    let a: u32 = data[i] as u32;
    let b: u32 = data[i + 1] as u32;
    let c: u32 = data[i + 2] as u32;
    let d: u32 = data[i + 3] as u32;
    a * 0x1000000 + b * 0x10000 + c * 0x100 + d
}

/// The layout that `data` gives if it begins with the header of a write-ahead log.
pub open spec fn wal_layout(data: Seq<u8>) -> Option<WalLayout> {
    if data.len() >= WAL_HEADER_BYTES && (big_endian(data, 0) == WAL_MAGIC_LITTLE || big_endian(
        data,
        0,
    ) == WAL_MAGIC_BIG) {
        Some(WalLayout { page_size: big_endian(data, 8) })
    } else {
        None
    }
}

/// Reads the header of a write-ahead log.
pub fn parse_wal_header(data: &[u8]) -> (layout: Option<WalLayout>)
    ensures
        layout == wal_layout(data@),
{
    if data.len() < 32 {
        return None;
    }
    let magic: u32 = read_big_endian(data, 0);
    if magic == WAL_MAGIC_LITTLE || magic == WAL_MAGIC_BIG {
        Some(WalLayout { page_size: read_big_endian(data, 8) })
    } else {
        None
    }
}

/// `file` once `data` has been written to it at `offset`; a gap is filled with
/// zeros.
pub open spec fn write_at(file: Seq<u8>, offset: nat, data: Seq<u8>) -> Seq<u8> {
    let end = offset + data.len();
    Seq::new(
        if data.len() == 0 || file.len() >= end {
            file.len()
        } else {
            end
        },
        |i: int|
            if offset <= i < end {
                data[i - offset]
            } else if i < file.len() {
                file[i]
            } else {
                0u8
            },
    )
}

/// `file` cut or filled up with zeros to `size` bytes.
pub open spec fn resize(file: Seq<u8>, size: nat) -> Seq<u8> {
    Seq::new(
        size,
        |i: int|
            if i < file.len() {
                file[i]
            } else {
                0u8
            },
    )
}

/// `amount` bytes of `file` from `offset` on; what lies beyond the end of the file
/// reads as zeros.
pub open spec fn read_at(file: Seq<u8>, offset: nat, amount: nat) -> Seq<u8> {
    Seq::new(
        amount,
        |i: int|
            if offset + i < file.len() {
                file[offset + i]
            } else {
                0u8
            },
    )
}

/// Pages of the database after the last transaction that is committed by one of
/// `frames`. Trailing bytes that are no complete frame do not count.
pub open spec fn last_commit(frames: Seq<u8>, frame_bytes: nat) -> Option<u32>
    decreases frames.len(),
{
    if frame_bytes < FRAME_HEADER_BYTES || frames.len() < frame_bytes {
        None
    } else {
        match last_commit(frames.skip(frame_bytes as int), frame_bytes) {
            Some(pages) => Some(pages),
            None => {
                let pages = big_endian(frames, 4);
                if pages != 0 {
                    Some(pages)
                } else {
                    None
                }
            },
        }
    }
}

/// Distance from `start` to the first frame of the log at or after it.
pub open spec fn to_first_frame(start: nat, frame_bytes: nat) -> nat {
    if start <= WAL_HEADER_BYTES {
        (WAL_HEADER_BYTES - start) as nat
    } else {
        let over = ((start - WAL_HEADER_BYTES) as nat) % frame_bytes;
        if over == 0 {
            0
        } else {
            (frame_bytes - over) as nat
        }
    }
}

/// What a [`WalStage`] holds.
#[verifier::ext_equal]
pub struct StageView {
    /// Where in the log the held-back bytes begin.
    pub start: nat,
    pub bytes: Seq<u8>,
    pub layout: Option<WalLayout>,
}

impl StageView {
    pub open spec fn end(self) -> nat {
        self.start + self.bytes.len()
    }

    /// The end of the stage is an offset that SQLite can use.
    pub open spec fn well_formed(self) -> bool {
        self.end() <= i64::MAX
    }

    pub open spec fn initial() -> StageView {
        StageView { start: 0, bytes: Seq::empty(), layout: None }
    }

    /// Whether a write at `offset` can be held back together with what is there.
    pub open spec fn adjoins(self, offset: nat) -> bool {
        self.bytes.len() == 0 || self.start <= offset <= self.end()
    }

    /// The stage once `data` at `offset` is held back too.
    pub open spec fn with_write(self, offset: nat, data: Seq<u8>) -> StageView {
        if self.bytes.len() == 0 {
            StageView { start: offset, bytes: data, ..self }
        } else {
            StageView {
                bytes: write_at(self.bytes, (offset - self.start) as nat, data),
                ..self
            }
        }
    }

    /// The stage with nothing held back.
    pub open spec fn emptied(self) -> StageView {
        StageView { bytes: Seq::empty(), ..self }
    }

    /// The stage without what lies at or beyond `size`.
    pub open spec fn cut(self, size: nat) -> StageView {
        if size <= self.start {
            self.emptied()
        } else if size < self.end() {
            StageView { bytes: self.bytes.take(size - self.start), ..self }
        } else {
            self
        }
    }

    /// `file` as it reads with the held-back bytes in place.
    pub open spec fn over(self, file: Seq<u8>) -> Seq<u8> {
        write_at(file, self.start, self.bytes)
    }

    /// Whether all of the `amount` bytes at `offset` are held back.
    pub open spec fn covers(self, offset: nat, amount: nat) -> bool {
        self.start <= offset && offset + amount <= self.end()
    }

    /// What is read at `offset` if the file behind gives `data`.
    pub open spec fn overlaid(self, offset: nat, data: Seq<u8>) -> Seq<u8> {
        Seq::new(
            data.len(),
            |i: int|
                if self.start <= offset + i < self.end() {
                    self.bytes[offset + i - self.start]
                } else {
                    data[i]
                },
        )
    }

    /// Pages of the database after the last transaction that is held back in full,
    /// if the layout of the log is known and there is one.
    pub open spec fn commit_pages(self) -> Option<u32> {
        match self.layout {
            None => None,
            Some(layout) => {
                let skipped = to_first_frame(self.start, layout.frame_bytes());
                if skipped <= self.bytes.len() {
                    last_commit(self.bytes.skip(skipped as int), layout.frame_bytes())
                } else {
                    None
                }
            },
        }
    }
}

/// Whether a write was held back.
#[derive(Clone, Copy, Debug, PartialEq, Eq, Structural)]
pub enum StageOutcome {
    Buffered,
    /// The write lies apart from what is held back.
    Apart,
}

/// The part of a write-ahead log that is held back.
#[derive(Debug)]
pub struct WalStage {
    start: u64,
    bytes: Vec<u8>,
    layout: Option<WalLayout>,
}

impl View for WalStage {
    type V = StageView;

    closed spec fn view(&self) -> StageView {
        StageView { start: self.start as nat, bytes: self.bytes@, layout: self.layout }
    }
}

impl Default for WalStage {
    fn default() -> (stage: Self)
        ensures
            stage@ == StageView::initial(),
    {
        let stage = WalStage { start: 0, bytes: Vec::new(), layout: None };
        assert(stage@ =~= StageView::initial());
        stage
    }
}

impl WalStage {
    pub fn is_empty(&self) -> (empty: bool)
        ensures
            empty == (self@.bytes.len() == 0),
    {
        self.bytes.len() == 0
    }

    pub fn start(&self) -> (start: u64)
        ensures
            start == self@.start,
    {
        self.start
    }

    pub fn end(&self) -> (end: u64)
        requires
            self@.well_formed(),
        ensures
            end == self@.end(),
    {
        self.start + self.bytes.len() as u64
    }

    pub fn bytes(&self) -> (bytes: &Vec<u8>)
        ensures
            bytes@ == self@.bytes,
    {
        &self.bytes
    }

    pub fn layout(&self) -> (layout: Option<WalLayout>)
        ensures
            layout == self@.layout,
    {
        self.layout
    }

    pub fn set_layout(&mut self, layout: WalLayout)
        ensures
            final(self)@ == (StageView { layout: Some(layout), ..old(self)@ }),
    {
        self.layout = Some(layout);
    }

    /// Holds a write back, if it adjoins or overlaps what is held back already.
    pub fn accept(&mut self, offset: u64, data: &[u8]) -> (outcome: StageOutcome)
        requires
            old(self)@.well_formed(),
            offset + data@.len() <= i64::MAX,
        ensures
            outcome is Buffered <==> old(self)@.adjoins(offset as nat),
            final(self)@ == (if old(self)@.adjoins(offset as nat) {
                old(self)@.with_write(offset as nat, data@)
            } else {
                old(self)@
            }),
            final(self)@.well_formed(),
    {
        if self.bytes.len() == 0 {
            self.start = offset;
            self.bytes.extend_from_slice(data);
            assert(self.bytes@ =~= data@);
            return StageOutcome::Buffered;
        }
        let ghost before = self.bytes@;
        if offset < self.start || offset > self.start + self.bytes.len() as u64 {
            return StageOutcome::Apart;
        }
        let at: usize = (offset - self.start) as usize;
        let size: usize = self.bytes.len();
        assert(at <= size);
        let mut i: usize = 0;
        while i < data.len()
            invariant
                i <= data@.len(),
                at <= size,
                size == before.len(),
                before.len() > 0,
                offset + data@.len() <= i64::MAX,
                at + self.start == offset,
                self.start == old(self).start,
                self.layout == old(self).layout,
                self.bytes@ =~= write_at(before, at as nat, data@.take(i as int)),
            decreases data@.len() - i,
        {
            if i < size - at {
                self.bytes.set(at + i, data[i]);
            } else {
                self.bytes.push(data[i]);
            }
            assert(self.bytes@ =~= write_at(before, at as nat, data@.take(i + 1)));
            i += 1;
        }
        assert(data@.take(i as int) =~= data@);
        StageOutcome::Buffered
    }

    /// Gives away what is held back, and where in the log it belongs.
    pub fn take(&mut self) -> (taken: (u64, Vec<u8>))
        ensures
            taken.0 == old(self)@.start,
            taken.1@ == old(self)@.bytes,
            final(self)@ == old(self)@.emptied(),
            old(self)@.well_formed() ==> final(self)@.well_formed(),
    {
        let mut bytes: Vec<u8> = Vec::new();
        std::mem::swap(&mut bytes, &mut self.bytes);
        assert(self@.bytes =~= Seq::empty());
        (self.start, bytes)
    }

    /// Drops what is held back at or beyond `size`.
    pub fn discard_from(&mut self, size: u64)
        requires
            old(self)@.well_formed(),
        ensures
            final(self)@ == old(self)@.cut(size as nat),
            final(self)@.well_formed(),
    {
        if size <= self.start {
            self.bytes.clear();
        } else if size < self.start + self.bytes.len() as u64 {
            self.bytes.truncate((size - self.start) as usize);
        }
        assert(self@.bytes =~= old(self)@.cut(size as nat).bytes);
    }

    /// Puts what is held back over `data`, which was read at `offset`. Tells whether
    /// all of it is held back.
    pub fn read_overlay(&self, offset: u64, data: &mut Vec<u8>) -> (covered: bool)
        requires
            self@.well_formed(),
            offset + old(data)@.len() <= i64::MAX,
        ensures
            final(data)@ == self@.overlaid(offset as nat, old(data)@),
            covered == self@.covers(offset as nat, old(data)@.len()),
    {
        let ghost before = data@;
        let held: usize = self.bytes.len();
        let end: u64 = self.start + held as u64;
        let size: usize = data.len();
        let mut i: usize = 0;
        while i < size
            invariant
                i <= size,
                size == before.len(),
                data@.len() == size,
                self@.well_formed(),
                end == self@.end(),
                held == self@.bytes.len(),
                self.start == self@.start,
                self.bytes@ == self@.bytes,
                offset + size <= i64::MAX,
                forall|j: int|
                    0 <= j < i ==> #[trigger] data@[j] == self@.overlaid(offset as nat, before)[j],
                forall|j: int| i <= j < size ==> #[trigger] data@[j] == before[j],
            decreases size - i,
        {
            let position: u64 = offset + i as u64;
            if self.start <= position && position < end {
                let from: usize = (position - self.start) as usize;
                data.set(i, self.bytes[from]);
            }
            i += 1;
        }
        assert(data@ =~= self@.overlaid(offset as nat, before));
        self.start <= offset && offset + size as u64 <= end
    }

    /// Pages of the database after the last transaction that is held back in full,
    /// if the layout of the log is known and there is one.
    pub fn commit_pages(&self) -> (pages: Option<u32>)
        requires
            self@.well_formed(),
        ensures
            pages == self@.commit_pages(),
    {
        let layout: WalLayout = match self.layout {
            Some(layout) => layout,
            None => {
                return None;
            },
        };
        let frame_bytes: u64 = FRAME_HEADER_BYTES + layout.page_size as u64;
        let skipped: u64 = if self.start <= WAL_HEADER_BYTES {
            WAL_HEADER_BYTES - self.start
        } else {
            let over: u64 = (self.start - WAL_HEADER_BYTES) % frame_bytes;
            if over == 0 {
                0
            } else {
                frame_bytes - over
            }
        };
        let ghost bytes = self.bytes@;
        let held: usize = self.bytes.len();
        let size: u64 = held as u64;
        if skipped > size {
            return None;
        }
        let ghost frames = bytes.skip(skipped as int);
        let mut pages: Option<u32> = None;
        let mut at: u64 = skipped;
        while size - at >= frame_bytes
            invariant
                skipped <= at <= size,
                size == bytes.len(),
                size == held,
                bytes == self.bytes@,
                frame_bytes >= FRAME_HEADER_BYTES,
                frames == bytes.skip(skipped as int),
                last_commit(frames, frame_bytes as nat) == (match last_commit(
                    bytes.skip(at as int),
                    frame_bytes as nat,
                ) {
                    Some(later) => Some(later),
                    None => pages,
                }),
            decreases size - at,
        {
            let ghost rest = bytes.skip(at as int);
            let number: u32 = read_big_endian(self.bytes.as_slice(), (at + 4) as usize);
            assert(number == big_endian(rest, 4)) by {
                assert(forall|k: int| 4 <= k < 8 ==> #[trigger] rest[k] == bytes[at + k]);
            }
            assert(rest.skip(frame_bytes as int) =~= bytes.skip(at + frame_bytes));
            if number != 0 {
                pages = Some(number);
            }
            at = at + frame_bytes;
        }
        pages
    }
}

} // verus!
