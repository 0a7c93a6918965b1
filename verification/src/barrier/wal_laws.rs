//! What a stage is, byte by byte of the log and frame by frame.

use vstd::prelude::*;

use crate::barrier::laws;
use crate::barrier::wal::{self, StageView, WalLayout};

verus! {

/// A number is read with its most significant byte first: its four digits to the base
/// of 256 are the four bytes.
pub proof fn numbers_are_read_most_significant_byte_first(data: Seq<u8>, i: int)
    ensures
        wal::big_endian(data, i) / 0x1000000 == data[i],
        wal::big_endian(data, i) / 0x10000 % 0x100 == data[i + 1],
        wal::big_endian(data, i) / 0x100 % 0x100 == data[i + 2],
        wal::big_endian(data, i) % 0x100 == data[i + 3],
{
    let a = data[i] as int;
    let b = data[i + 1] as int;
    let c = data[i + 2] as int;
    let d = data[i + 3] as int;
    let number = wal::big_endian(data, i) as int;
    assert(number == a * 0x1000000 + b * 0x10000 + c * 0x100 + d);
    assert(number / 0x1000000 == a);
    assert(number / 0x10000 == a * 0x100 + b);
    assert(number / 0x100 == a * 0x10000 + b * 0x100 + c);
}

/// Data gives a layout if and only if it has room for a header and begins with the three
/// fixed bytes of the magic number and one of its two last ones. The page size is in the
/// bytes from the eighth on.
pub proof fn headers_are_known_by_their_first_bytes(data: Seq<u8>)
    ensures
        wal::wal_layout(data) is Some <==> {
            &&& data.len() >= 32
            &&& data[0] == 0x37
            &&& data[1] == 0x7f
            &&& data[2] == 0x06
            &&& data[3] == 0x82 || data[3] == 0x83
        },
        wal::wal_layout(data) matches Some(layout) ==> {
            &&& layout.page_size / 0x1000000 == data[8]
            &&& layout.page_size / 0x10000 % 0x100 == data[9]
            &&& layout.page_size / 0x100 % 0x100 == data[10]
            &&& layout.page_size % 0x100 == data[11]
        },
{
    numbers_are_read_most_significant_byte_first(data, 0);
    numbers_are_read_most_significant_byte_first(data, 8);
}

/// The byte of the log at `at`, if it is held back.
pub open spec fn held(stage: StageView, at: int) -> Option<u8> {
    if stage.start <= at < stage.start + stage.bytes.len() {
        Some(stage.bytes[at - stage.start])
    } else {
        None
    }
}

/// A fresh stage holds nothing back and knows no layout.
pub proof fn fresh_stages_are_empty()
    ensures
        forall|at: int| #[trigger] held(StageView::initial(), at) is None,
        StageView::initial().bytes.len() == 0,
        StageView::initial().layout is None,
{
}

/// A write can be held back if and only if nothing is, or the byte at its offset or the
/// one before it is: it never leaves a gap and never comes before what is there.
pub proof fn held_back_writes_leave_no_gap(stage: StageView, offset: nat)
    ensures
        stage.adjoins(offset) <==> stage.bytes.len() == 0 || held(stage, offset as int) is Some
            || held(stage, offset - 1) is Some,
{
}

/// Once a write is held back, its bytes are held at their place in the log, and every
/// other byte of the log is held or not as before.
pub proof fn held_back_writes_replace_their_bytes(stage: StageView, offset: nat, data: Seq<u8>)
    requires
        stage.bytes.len() == 0 || stage.start <= offset <= stage.start + stage.bytes.len(),
    ensures
        forall|at: int| #[trigger]
            held(stage.with_write(offset, data), at) == (if offset <= at < offset + data.len() {
                Some(data[at - offset])
            } else {
                held(stage, at)
            }),
        stage.with_write(offset, data).layout == stage.layout,
{
}

/// Emptying a stage leaves no byte held back and the layout as it is.
pub proof fn emptied_stages_hold_nothing(stage: StageView)
    ensures
        forall|at: int| #[trigger] held(stage.emptied(), at) is None,
        stage.emptied().bytes.len() == 0,
        stage.emptied().layout == stage.layout,
{
}

/// Cutting a stage keeps exactly the bytes before the cut.
pub proof fn cut_stages_keep_what_lies_before(stage: StageView, size: nat)
    ensures
        forall|at: int| #[trigger]
            held(stage.cut(size), at) == (if at < size {
                held(stage, at)
            } else {
                None
            }),
        stage.cut(size).layout == stage.layout,
{
}

/// With a stage over it a file has the held-back bytes where there are any and its own
/// elsewhere. It reaches to the end of either.
pub proof fn files_are_overlaid_byte_by_byte(stage: StageView, file: Seq<u8>)
    ensures
        forall|at: int|
            0 <= at < stage.over(file).len() ==> #[trigger] stage.over(file)[at] == (match held(
                stage,
                at,
            ) {
                Some(byte) => byte,
                None => if at < file.len() {
                    file[at]
                } else {
                    0u8
                },
            }),
        stage.over(file).len() >= file.len(),
        forall|at: int| #[trigger] held(stage, at) is Some ==> at < stage.over(file).len(),
        stage.over(file).len() == file.len() || held(
            stage,
            stage.over(file).len() - 1,
        ) is Some,
{
}

/// A read is covered if and only if each of its bytes is held back.
pub proof fn covered_reads_are_held_in_full(stage: StageView, offset: nat, amount: nat)
    requires
        amount > 0,
    ensures
        stage.covers(offset, amount) <==> forall|at: int|
            offset <= at < offset + amount ==> #[trigger] held(stage, at) is Some,
{
    if forall|at: int| offset <= at < offset + amount ==> #[trigger] held(stage, at) is Some {
        assert(held(stage, offset as int) is Some);
        assert(held(stage, offset + amount - 1) is Some);
    }
}

/// What is read has the held-back bytes where there are any, and is otherwise what the
/// file behind gave.
pub proof fn reads_are_overlaid_byte_by_byte(stage: StageView, offset: nat, data: Seq<u8>)
    ensures
        stage.overlaid(offset, data).len() == data.len(),
        forall|i: int|
            0 <= i < data.len() ==> #[trigger] stage.overlaid(offset, data)[i] == (match held(
                stage,
                offset + i,
            ) {
                Some(byte) => byte,
                None => data[i],
            }),
{
}

/// The end of a stage that holds something is the first offset behind it all.
pub proof fn stages_end_behind_their_last_byte(stage: StageView)
    requires
        stage.bytes.len() > 0,
    ensures
        held(stage, stage.end() - 1) is Some,
        forall|at: int| at >= stage.end() ==> #[trigger] held(stage, at) is None,
{
}

/// A write to a file puts its bytes at their place and leaves every other byte. The file
/// grows if and only if the write reaches beyond its end, and a gap is zeros.
pub proof fn written_files_differ_only_where_written(file: Seq<u8>, offset: nat, data: Seq<u8>)
    ensures
        ({
            let after = wal::write_at(file, offset, data);
            &&& forall|i: int|
                0 <= i < data.len() ==> offset + i < after.len() && #[trigger] data[i] == after[offset
                    + i]
            &&& forall|at: int|
                0 <= at < file.len() && !(offset <= at < offset + data.len())
                    ==> #[trigger] after[at] == file[at]
            &&& forall|at: int| file.len() <= at < offset && at < after.len() ==> #[trigger] after[at] == 0
            &&& after.len() >= file.len()
            &&& after.len() == file.len() || after.len() == offset + data.len()
        }),
{
}

/// A resized file has the wanted size, keeps its bytes as far as it reaches and is filled
/// up with zeros.
pub proof fn resized_files_keep_their_bytes(file: Seq<u8>, size: nat)
    ensures
        wal::resize(file, size).len() == size,
        forall|at: int|
            0 <= at < size && at < file.len() ==> #[trigger] wal::resize(file, size)[at] == file[at],
        forall|at: int| file.len() <= at < size ==> #[trigger] wal::resize(file, size)[at] == 0,
{
}

/// Reading a file gives its bytes from the offset on, and zeros beyond its end.
pub proof fn read_bytes_are_those_of_the_file(file: Seq<u8>, offset: nat, amount: nat)
    ensures
        wal::read_at(file, offset, amount).len() == amount,
        forall|i: int|
            0 <= i < amount && offset + i < file.len() ==> #[trigger] wal::read_at(
                file,
                offset,
                amount,
            )[i] == file[offset + i],
        forall|i: int|
            0 <= i < amount && offset + i >= file.len() ==> #[trigger] wal::read_at(
                file,
                offset,
                amount,
            )[i] == 0,
{
}

/// Where in the log the frame at position `k` begins.
pub open spec fn frame_offset(layout: WalLayout, k: nat) -> int {
    32 + k * (24 + layout.page_size)
}

/// Whether all bytes of the frame at position `k` of the log are held back.
pub open spec fn holds_frame(stage: StageView, layout: WalLayout, k: nat) -> bool {
    &&& stage.start <= frame_offset(layout, k)
    &&& frame_offset(layout, k) + 24 + layout.page_size <= stage.start + stage.bytes.len()
}

/// The size field of that frame.
pub open spec fn frame_pages(stage: StageView, layout: WalLayout, k: nat) -> u32 {
    wal::big_endian(stage.bytes, frame_offset(layout, k) - stage.start + 4)
}

/// The position of the first frame of the log that begins at or after the start of a
/// stage.
spec fn first_frame(stage: StageView, layout: WalLayout) -> int {
    (stage.start + wal::to_first_frame(stage.start, layout.frame_bytes()) - 32) / (
    layout.frame_bytes() as int)
}

proof fn lemma_first_frame(stage: StageView, layout: WalLayout)
    ensures
        first_frame(stage, layout) >= 0,
        frame_offset(layout, first_frame(stage, layout) as nat) == stage.start
            + wal::to_first_frame(stage.start, layout.frame_bytes()),
{
    let n = layout.frame_bytes() as int;
    let x = stage.start + wal::to_first_frame(stage.start, layout.frame_bytes()) - 32;
    laws::frames_are_found_where_they_begin(stage.start, layout);
    vstd::arithmetic::div_mod::lemma_fundamental_div_mod(x, n);
    vstd::arithmetic::div_mod::lemma_div_pos_is_pos(x, n);
    let q = x / n;
    assert(n * q == q * n) by (nonlinear_arith);
}

/// A held-back frame is one of those that are searched for a commit.
proof fn lemma_held_frame(stage: StageView, layout: WalLayout, j: nat)
    requires
        holds_frame(stage, layout, j),
    ensures
        ({
            let n = layout.frame_bytes();
            let skipped = wal::to_first_frame(stage.start, n);
            let first = first_frame(stage, layout);
            &&& skipped <= stage.bytes.len()
            &&& j >= first
            &&& (j - first + 1) * n <= stage.bytes.len() - skipped
            &&& frame_pages(stage, layout, j) == laws::frame_commit(
                stage.bytes.skip(skipped as int),
                n,
                (j - first) as nat,
            )
        }),
{
    let n = layout.frame_bytes();
    let skipped = wal::to_first_frame(stage.start, n);
    let first = first_frame(stage, layout);
    lemma_first_frame(stage, layout);
    laws::frames_are_found_where_they_begin(stage.start, layout);
    if j < first {
        assert(j * n + n <= first * n) by (nonlinear_arith)
            requires
                j + 1 <= first,
                n >= 0,
        ;
        if stage.start <= 32 {
            assert(first * n == 0);
            assert(n >= 24);
            assert(j * n >= 0) by (nonlinear_arith)
                requires
                    j >= 0,
                    n >= 0,
            ;
        }
        assert(false);
    }
    let k = j - first;
    assert(j * n == first * n + k * n) by (nonlinear_arith)
        requires
            j == first + k,
    ;
    assert((k + 1) * n == k * n + n) by (nonlinear_arith);
    assert(k * n >= 0) by (nonlinear_arith)
        requires
            k >= 0,
            n >= 0,
    ;
    let frames = stage.bytes.skip(skipped as int);
    let at = k * n + 4;
    assert(forall|i: int| at <= i < at + 4 ==> #[trigger] frames[i] == stage.bytes[i + skipped]);
}

/// A frame that is searched for a commit is held back.
proof fn lemma_searched_frame(stage: StageView, layout: WalLayout, k: nat)
    requires
        wal::to_first_frame(stage.start, layout.frame_bytes()) <= stage.bytes.len(),
        (k + 1) * layout.frame_bytes() <= stage.bytes.len() - wal::to_first_frame(
            stage.start,
            layout.frame_bytes(),
        ),
    ensures
        holds_frame(stage, layout, (first_frame(stage, layout) + k) as nat),
{
    let n = layout.frame_bytes();
    let first = first_frame(stage, layout);
    lemma_first_frame(stage, layout);
    assert((first + k) * n == first * n + k * n) by (nonlinear_arith);
    assert((k + 1) * n == k * n + n) by (nonlinear_arith);
    assert(k * n >= 0) by (nonlinear_arith)
        requires
            k >= 0,
            n >= 0,
    ;
}

/// A stage commits if and only if the layout of the log is known and a frame that is held
/// back in full has a size field that is not zero, wherever in the log the stage starts.
/// The pages are those of the last such frame.
pub proof fn commits_are_found_wherever_the_stage_starts(stage: StageView)
    ensures
        stage.layout is None ==> stage.commit_pages() is None,
        stage.layout matches Some(layout) ==> match stage.commit_pages() {
            None => forall|k: nat|
                holds_frame(stage, layout, k) ==> #[trigger] frame_pages(stage, layout, k) == 0,
            Some(pages) => pages != 0 && exists|k: nat|
                {
                    &&& holds_frame(stage, layout, k)
                    &&& #[trigger] frame_pages(stage, layout, k) == pages
                    &&& forall|j: nat|
                        j > k && holds_frame(stage, layout, j) ==> #[trigger] frame_pages(
                            stage,
                            layout,
                            j,
                        ) == 0
                },
        },
{
    if stage.layout is Some {
        let layout = stage.layout->Some_0;
        let n = layout.frame_bytes();
        let skipped = wal::to_first_frame(stage.start, n);
        let first = first_frame(stage, layout);
        let frames = stage.bytes.skip(skipped as int);
        lemma_first_frame(stage, layout);
        if skipped > stage.bytes.len() {
            assert forall|k: nat| holds_frame(stage, layout, k) implies #[trigger] frame_pages(
                stage,
                layout,
                k,
            ) == 0 by {
                lemma_held_frame(stage, layout, k);
            }
        } else {
            laws::last_commit_is_the_last_commit_frame(frames, layout);
            match wal::last_commit(frames, n) {
                None => {
                    assert forall|k: nat| holds_frame(stage, layout, k) implies #[trigger]
                        frame_pages(stage, layout, k) == 0 by {
                        lemma_held_frame(stage, layout, k);
                    }
                },
                Some(pages) => {
                    let k = choose|k: nat|
                        {
                            &&& (k + 1) * n <= frames.len()
                            &&& #[trigger] laws::frame_commit(frames, n, k) == pages
                            &&& forall|j: nat|
                                j > k && (j + 1) * n <= frames.len()
                                    ==> #[trigger] laws::frame_commit(frames, n, j) == 0
                        };
                    let found = (first + k) as nat;
                    lemma_searched_frame(stage, layout, k);
                    lemma_held_frame(stage, layout, found);
                    assert(frame_pages(stage, layout, found) == pages);
                    assert forall|j: nat| j > found && holds_frame(stage, layout, j) implies #[trigger]
                        frame_pages(stage, layout, j) == 0 by {
                        lemma_held_frame(stage, layout, j);
                    }
                },
            }
        }
    }
}

} // verus!
