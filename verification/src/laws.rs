//! Laws of the buffer: what holds of every state and of every sequence of
//! operations, proved over the model that the contracts of the executable
//! code refer to.

use vstd::prelude::*;
use crate::error::BufferError;
use crate::model::{BufferView, ReaderView, Step, WriterView};

verus! {

/// The cursor invariant holds of a new buffer and is kept by every operation
/// on a buffer.
pub proof fn lemma_cursor_invariant(b: BufferView, src: Seq<u8>, n: nat)
    requires
        b.wf(),
    ensures
        BufferView::fresh(b.storage).wf(),
        b.cleared().wf(),
        b.shifted().wf(),
        b.compacted_for(n).wf(),
        b.after_write(src).wf(),
        b.after_read(n).wf(),
        b.after_push(src).wf(),
        b.after_skip(n).wf(),
{
}

/// The cursor invariant is kept by a reader from its opening to its release.
pub proof fn lemma_cursor_invariant_reader(b: BufferView, limit: Option<nat>, r: ReaderView, n: nat)
    requires
        b.wf(),
        r.wf(),
    ensures
        ReaderView::opened(b, limit).wf(),
        ReaderView::opened(b, limit).in_bounds(),
        r.declared(n).wf(),
        r.in_bounds() ==> r.released().wf(),
{
}

/// The cursor invariant is kept by a writer from its opening to its release,
/// whatever is written to the bytes it exposes.
pub proof fn lemma_cursor_invariant_writer(b: BufferView, w: WriterView, bytes: Seq<u8>, n: nat)
    requires
        b.wf(),
        w.wf(),
        bytes.len() == w.exposed().len(),
    ensures
        WriterView::attached(b).wf(),
        WriterView::opened(b).wf(),
        w.overwritten(bytes).wf(),
        w.after_commit(n).wf(),
        w.released().wf(),
{
}

/// No operation changes the capacity of a buffer.
pub proof fn lemma_capacity_is_fixed(b: BufferView, src: Seq<u8>, n: nat)
    requires
        b.wf(),
    ensures
        b.cleared().capacity() == b.capacity(),
        b.shifted().capacity() == b.capacity(),
        b.compacted_for(n).capacity() == b.capacity(),
        b.after_write(src).capacity() == b.capacity(),
        b.after_read(n).capacity() == b.capacity(),
        b.after_push(src).capacity() == b.capacity(),
        b.after_skip(n).capacity() == b.capacity(),
{
}

/// The cursor invariant is kept, and the capacity with it, by every use of
/// a buffer.
pub proof fn lemma_step_keeps_cursor_invariant(b: BufferView, step: Step)
    requires
        b.wf(),
    ensures
        b.after(step).wf(),
        b.after(step).capacity() == b.capacity(),
{
}

/// The cursor invariant holds in every state that a buffer can reach:
/// whatever the storage a buffer is created over and whatever is done with
/// it, `0 <= read <= write <= capacity`, and the capacity stays what it was.
pub proof fn lemma_reachable_states_are_wf(storage: Seq<u8>, steps: Seq<Step>)
    ensures
        BufferView::fresh(storage).after_all(steps).wf(),
        BufferView::fresh(storage).after_all(steps).capacity() == storage.len(),
    decreases steps.len(),
{
    if steps.len() > 0 {
        lemma_reachable_states_are_wf(storage, steps.drop_last());
        lemma_step_keeps_cursor_invariant(
            BufferView::fresh(storage).after_all(steps.drop_last()),
            steps.last(),
        );
    }
}

/// Compaction changes where the unread bytes lie and nothing else about
/// them: their number and their content stay, both cursors move down by the
/// same amount, the free space grows by what was dead, and a second
/// compaction changes nothing.
pub proof fn lemma_shift_keeps_data(b: BufferView)
    requires
        b.wf(),
    ensures
        b.shifted().remaining_len() == b.remaining_len(),
        b.shifted().data() == b.data(),
        b.read - b.shifted().read == b.write - b.shifted().write,
        b.shifted().capacity() == b.capacity(),
        b.shifted().remaining_capacity() == b.remaining_capacity() + b.read,
        b.shifted().shifted() == b.shifted(),
{
    assert(b.shifted().shifted().storage =~= b.shifted().storage);
}

/// Seeking room never touches the unread bytes.
pub proof fn lemma_compaction_keeps_data(b: BufferView, wanted: nat)
    requires
        b.wf(),
    ensures
        b.compacted_for(wanted).data() == b.data(),
        b.compacted_for(wanted).capacity() == b.capacity(),
{
}

/// A greedy write puts the bytes it reports stored after the unread bytes,
/// in order, and stores all of `src` when `src` fits into the free space that
/// the write finds.
pub proof fn lemma_write_appends(b: BufferView, src: Seq<u8>)
    requires
        b.wf(),
    ensures
        match b.write_result(src.len()) {
            Ok(n) => {
                &&& 0 < n <= src.len()
                &&& b.after_write(src).data() == b.data() + src.take(n as int)
                &&& b.after_write(src).remaining_len() == b.remaining_len() + n
            },
            Err(_) => b.after_write(src) == b,
        },
        0 < src.len() <= b.compacted_for(1).remaining_capacity()
            ==> b.write_result(src.len()) == Ok::<nat, BufferError>(src.len()),
{
}

/// A greedy read hands out the oldest unread bytes and leaves the others
/// unread.
pub proof fn lemma_read_takes_front(b: BufferView, len: nat)
    requires
        b.wf(),
    ensures
        match b.read_result(len) {
            Ok(n) => {
                &&& 0 < n <= len
                &&& n <= b.remaining_len()
                &&& b.data() == b.data().take(n as int) + b.after_read(len).data()
            },
            Err(_) => b.after_read(len) == b,
        },
{
}

/// Writing, then reading: when `src` is not empty and fits into the free
/// space that a write finds, writing `src` and then reading into `src.len()`
/// bytes hands out the first `src.len()` bytes of the unread bytes followed
/// by `src`, and leaves as many bytes unread as there were before.
pub proof fn lemma_write_then_read(b: BufferView, src: Seq<u8>)
    requires
        b.wf(),
        0 < src.len() <= b.compacted_for(1).remaining_capacity(),
    ensures
        b.write_result(src.len()) == Ok::<nat, BufferError>(src.len()),
        b.after_write(src).read_result(src.len()) == Ok::<nat, BufferError>(src.len()),
        b.after_write(src).data().take(src.len() as int)
            == (b.data() + src).take(src.len() as int),
        b.after_write(src).after_read(src.len()).remaining_len() == b.remaining_len(),
{
}

/// Round trip: when nothing is unread and `src` is not empty and fits into
/// the free space that a write finds, writing `src` and then reading
/// `src.len()` bytes stores and hands out exactly `src`, and leaves nothing
/// unread.
pub proof fn lemma_write_read_round_trip(b: BufferView, src: Seq<u8>)
    requires
        b.wf(),
        b.remaining_len() == 0,
        0 < src.len() <= b.compacted_for(1).remaining_capacity(),
    ensures
        b.write_result(src.len()) == Ok::<nat, BufferError>(src.len()),
        b.after_write(src).read_result(src.len()) == Ok::<nat, BufferError>(src.len()),
        b.after_write(src).data().take(src.len() as int) == src,
        b.after_write(src).after_read(src.len()).remaining_len() == 0,
{
}

/// An all-or-nothing write stores `src` whole after the unread bytes when
/// it fits beside them, and changes nothing when it does not.
pub proof fn lemma_push_is_atomic(b: BufferView, src: Seq<u8>)
    requires
        b.wf(),
    ensures
        b.fits(src.len()) ==> b.after_push(src).data() == b.data() + src,
        b.fits(src.len()) ==> b.after_push(src).remaining_len() == b.remaining_len() + src.len(),
        !b.fits(src.len()) ==> b.after_push(src) == b,
{
}

/// Round trip through an all-or-nothing write: when nothing is unread and
/// `src` is not empty and no longer than the capacity, pushing `src` and
/// then reading `src.len()` bytes hands out exactly `src`.
pub proof fn lemma_push_read_round_trip(b: BufferView, src: Seq<u8>)
    requires
        b.wf(),
        b.remaining_len() == 0,
        0 < src.len() <= b.capacity(),
    ensures
        b.fits(src.len()),
        b.after_push(src).read_result(src.len()) == Ok::<nat, BufferError>(src.len()),
        b.after_push(src).data().take(src.len() as int) == src,
        b.after_push(src).after_read(src.len()).remaining_len() == 0,
{
}

/// Skipping exactly the unread bytes leaves none unread; skipping more than
/// that changes nothing.
pub proof fn lemma_skip_boundary(b: BufferView, n: nat)
    requires
        b.wf(),
    ensures
        b.after_skip(b.remaining_len()).remaining_len() == 0,
        n <= b.remaining_len() ==> b.after_skip(n).remaining_len() == b.remaining_len() - n,
        n > b.remaining_len() ==> b.after_skip(n) == b,
{
}

/// A reader without a limit exposes exactly the unread bytes; one with a
/// limit exposes their first `limit` bytes. Its release moves the read
/// cursor ahead by exactly the declared total and changes nothing else, so a
/// reader released with nothing declared leaves the buffer as it found it.
pub proof fn lemma_reader_release(b: BufferView, limit: Option<nat>, n: nat)
    requires
        b.wf(),
    ensures
        ReaderView::opened(b, None).exposed() == b.data(),
        ReaderView::opened(b, limit).exposed().is_prefix_of(b.data()),
        ReaderView::opened(b, limit).released() == b,
        ReaderView::opened(b, limit).declared(n).released() == b.skipped(n),
        ReaderView::opened(b, limit).declared(n).released().read == b.read + n,
        n <= ReaderView::opened(b, limit).exposed().len() ==> {
            &&& ReaderView::opened(b, limit).declared(n).released().wf()
            &&& b.data() == b.data().take(n as int)
                + ReaderView::opened(b, limit).declared(n).released().data()
        },
{
}

/// Declared byte counts add up, in whatever portions they are declared.
pub proof fn lemma_reader_declarations_add_up(r: ReaderView, n: nat, m: nat)
    ensures
        r.declared(n).declared(m) == r.declared(n + m),
        r.declared(n).exposed() == r.exposed(),
        r.declared(0) == r,
{
}

/// A new writer exposes all the space that the unread bytes leave, dead
/// bytes included, and keeps the unread bytes as they were.
pub proof fn lemma_writer_sees_all_free_space(b: BufferView)
    requires
        b.wf(),
    ensures
        WriterView::opened(b).wf(),
        WriterView::opened(b).exposed().len() == b.capacity() - b.remaining_len(),
        WriterView::opened(b).remaining_capacity() == b.capacity() - b.remaining_len(),
        WriterView::opened(b).buffer.data() == b.data(),
{
}

/// Bytes that were written into the exposed region and not committed are
/// never seen by a reader: the unread bytes after the release of the writer
/// are what they would be had nothing been written. A writer released with
/// nothing committed leaves the unread bytes as they were when it was
/// opened.
pub proof fn lemma_uncommitted_bytes_invisible(b: BufferView, w: WriterView, bytes: Seq<u8>)
    requires
        b.wf(),
        w.wf(),
    ensures
        w.overwritten(bytes).released().data() == w.released().data(),
        w.overwritten(bytes).released().read == w.released().read,
        w.overwritten(bytes).released().write == w.released().write,
        WriterView::opened(b).overwritten(bytes).released().data() == b.data(),
        WriterView::opened(b).overwritten(bytes).released().remaining_len() == b.remaining_len(),
{
}

/// Committed bytes join the unread bytes at the release of the writer, in
/// the order in which they were written.
pub proof fn lemma_committed_bytes_join(w: WriterView, bytes: Seq<u8>, n: nat)
    requires
        w.wf(),
        bytes.len() == w.exposed().len(),
        n <= bytes.len(),
    ensures
        w.overwritten(bytes).after_commit(n).released().data()
            == w.released().data() + bytes.take(n as int),
        w.overwritten(bytes).after_commit(n).exposed() == bytes.skip(n as int),
{
}

/// Commits add up, and a commit that does not fit changes nothing.
pub proof fn lemma_commits_add_up(w: WriterView, n: nat, m: nat)
    requires
        w.wf(),
    ensures
        n + m <= w.remaining_capacity()
            ==> w.after_commit(n).after_commit(m) == w.after_commit(n + m),
        n > w.remaining_capacity() ==> w.after_commit(n) == w,
        n <= w.remaining_capacity() ==> w.after_commit(n).remaining_capacity()
            == w.remaining_capacity() - n,
{
}

} // verus!
