//! A write queue and bump allocator over [`ByteBuffer`].
//!
//! `queue_write` hands out a destination byte range immediately and retains
//! the payload; `perform_writes` later drains the queue into the backing
//! storage, growing it as needed. Callers may reference a returned range
//! before the bytes physically land — the deferred-write contract — as long
//! as every queued write is flushed before the first read of the range.

use vstd::prelude::*;
use crate::byte_buffer::ByteBuffer;
use crate::byte_buffer::ByteBufferView;
use crate::byte_buffer::grown_capacity;

verus! {

/// A half-open destination byte range handed out by [`PersistentGpuBuffer::queue_write`].
#[derive(Clone, Copy, PartialEq, Eq, Structural, Debug)]
pub struct ByteRange {
    pub start: usize,
    pub end: usize,
}

struct PendingWrite {
    offset: usize,
    data: Vec<u8>,
}

/// The state of a [`PersistentGpuBuffer`] as specifications see it.
#[verifier::ext_equal]
pub ghost struct PersistentGpuBufferView {
    /// The backing storage; its `size` is the number of flushed bytes.
    pub buffer: ByteBufferView,
    /// Logical length: flushed bytes plus all queued-but-unflushed bytes.
    /// This is the bump-allocation cursor new writes are placed at.
    pub size: nat,
    /// The queued writes, oldest first, as (destination offset, payload).
    pub pending: Seq<(nat, Seq<u8>)>,
}

impl PersistentGpuBufferView {
    /// The bump cursor after the first `i` queued writes: queued writes sit
    /// back to back, starting right after the flushed bytes.
    pub open spec fn pending_end(self, i: int) -> int
        decreases i,
    {
        if i <= 0 {
            self.buffer.size as int
        } else {
            self.pending_end(i - 1) + self.pending[i - 1].1.len()
        }
    }

    pub open spec fn wf(self) -> bool {
        &&& self.buffer.wf()
        &&& self.buffer.size <= self.size
        &&& self.size <= usize::MAX
        &&& forall|i: int|
            0 <= i < self.pending.len() ==> (#[trigger] self.pending[i]).0 == self.pending_end(i)
        &&& self.pending_end(self.pending.len() as int) == self.size
    }

    /// The view of a freshly created buffer.
    pub open spec fn empty() -> PersistentGpuBufferView {
        PersistentGpuBufferView {
            buffer: ByteBufferView { bytes: Seq::empty(), size: 0, generation: 0 },
            size: 0,
            pending: Seq::empty(),
        }
    }
}

/// What [`PersistentGpuBuffer::queue_write`] does to the state: the payload
/// is appended to the queue at the current cursor, and the cursor advances.
pub open spec fn queue_write_spec(
    v: PersistentGpuBufferView,
    data: Seq<u8>,
) -> PersistentGpuBufferView {
    PersistentGpuBufferView {
        buffer: v.buffer,
        size: (v.size + data.len()) as nat,
        pending: v.pending.push((v.size, data)),
    }
}

/// What [`PersistentGpuBuffer::perform_writes`] does to the state: every
/// queued payload lands byte-identically at its assigned offset, previously
/// flushed bytes are preserved, the queue empties, and the backing storage
/// grows — bumping its generation exactly once — only if it was too small.
pub open spec fn flush_transition(
    pre: PersistentGpuBufferView,
    post: PersistentGpuBufferView,
) -> bool {
    &&& post.size == pre.size
    &&& post.buffer.size == pre.size
    &&& post.pending.len() == 0
    &&& post.buffer.capacity() == grown_capacity(pre.buffer.capacity(), pre.size)
    &&& post.buffer.bytes.subrange(0, pre.buffer.size as int) == pre.buffer.bytes.subrange(
        0,
        pre.buffer.size as int,
    )
    &&& forall|i: int|
        0 <= i < pre.pending.len() ==> post.buffer.bytes.subrange(
            (#[trigger] pre.pending[i]).0 as int,
            (pre.pending[i].0 + pre.pending[i].1.len()) as int,
        ) == pre.pending[i].1
    &&& (pre.size <= pre.buffer.capacity() ==> post.buffer.generation == pre.buffer.generation)
    &&& (pre.size > pre.buffer.capacity() ==> post.buffer.generation == pre.buffer.generation + 1)
}

/// A persistent GPU buffer: backing storage that outlives single frames,
/// plus a queue of writes not yet copied into it.
pub struct PersistentGpuBuffer {
    buffer: ByteBuffer,
    size: usize,
    pending: Vec<PendingWrite>,
}

impl View for PersistentGpuBuffer {
    type V = PersistentGpuBufferView;

    closed spec fn view(&self) -> PersistentGpuBufferView {
        PersistentGpuBufferView {
            buffer: self.buffer@,
            size: self.size as nat,
            pending: self.pending@.map_values(|w: PendingWrite| (w.offset as nat, w.data@)),
        }
    }
}

impl PersistentGpuBuffer {
    /// An empty persistent buffer with nothing allocated and nothing queued.
    pub fn new() -> (b: PersistentGpuBuffer)
        ensures
            b@.wf(),
            b@ == PersistentGpuBufferView::empty(),
    {
        let b = PersistentGpuBuffer { buffer: ByteBuffer::new(), size: 0, pending: Vec::new() };
        proof {
            assert(b@.pending =~= Seq::<(nat, Seq<u8>)>::empty());
            assert(b@ =~= PersistentGpuBufferView::empty());
        }
        b
    }

    /// Logical length: flushed plus queued bytes; the current bump cursor.
    pub fn len(&self) -> (n: usize)
        ensures
            n == self@.size,
    {
        self.size
    }

    /// Number of bytes already flushed to the backing storage.
    pub fn flushed_len(&self) -> (n: usize)
        ensures
            n == self@.buffer.size,
    {
        self.buffer.size()
    }

    /// Allocated capacity of the backing storage in bytes.
    pub fn capacity(&self) -> (n: usize)
        ensures
            n == self@.buffer.capacity(),
    {
        self.buffer.capacity()
    }

    /// The reallocation generation of the backing storage.
    pub fn generation(&self) -> (g: u64)
        ensures
            g == self@.buffer.generation,
    {
        self.buffer.generation()
    }

    /// Reads one flushed byte of the backing storage.
    pub fn read_byte(&self, i: usize) -> (b: u8)
        requires
            self@.wf(),
            i < self@.buffer.size,
        ensures
            b == self@.buffer.bytes[i as int],
    {
        self.buffer.read_byte(i)
    }

    /// Copies the flushed bytes `start..end` of the backing storage.
    pub fn read_bytes(&self, start: usize, end: usize) -> (out: Vec<u8>)
        requires
            self@.wf(),
            start <= end <= self@.buffer.size,
        ensures
            out@ == self@.buffer.bytes.subrange(start as int, end as int),
    {
        let mut out: Vec<u8> = Vec::new();
        let mut i: usize = start;
        while i < end
            invariant
                start <= i <= end,
                end <= self@.buffer.size,
                self@.wf(),
                out@ == self@.buffer.bytes.subrange(start as int, i as int),
            decreases end - i,
        {
            out.push(self.buffer.read_byte(i));
            i += 1;
            proof {
                assert(out@ =~= self@.buffer.bytes.subrange(start as int, i as int));
            }
        }
        out
    }

    /// Assigns `data` the next contiguous destination range by bump
    /// allocation and queues it for a later flush. Returns the range at
    /// once; the buffer is not touched and nothing blocks.
    pub fn queue_write(&mut self, data: Vec<u8>) -> (r: ByteRange)
        requires
            old(self)@.wf(),
            old(self)@.size + data@.len() <= usize::MAX,
        ensures
            final(self)@.wf(),
            final(self)@ == queue_write_spec(old(self)@, data@),
            r.start == old(self)@.size,
            r.end == old(self)@.size + data@.len(),
    {
        let start = self.size;
        let end = self.size + data.len();
        let ghost pre = self@;
        let ghost payload = data@;
        self.pending.push(PendingWrite { offset: start, data });
        self.size = end;
        proof {
            assert(self@.pending =~= pre.pending.push((pre.size, payload)));
            assert(self@ =~= queue_write_spec(pre, payload));
            lemma_queue_write_spec_wf(pre, payload);
        }
        ByteRange { start, end }
    }

    /// Drains every queued write into the backing storage, growing it first
    /// if the queued bytes run past its capacity. Afterwards every range
    /// returned by a prior `queue_write` reads back its queued payload.
    #[verifier::rlimit(60)]
    pub fn perform_writes(&mut self)
        requires
            old(self)@.wf(),
        ensures
            final(self)@.wf(),
            flush_transition(old(self)@, final(self)@),
    {
        let ghost pre = self@;
        let additional = self.size - self.buffer.size();
        self.buffer.reserve(additional);
        let mut i: usize = 0;
        while i < self.pending.len()
            invariant
                pre.wf(),
                i <= self.pending.len(),
                self.size == pre.size,
                self.pending@.map_values(|w: PendingWrite| (w.offset as nat, w.data@))
                    == pre.pending,
                self.buffer@.wf(),
                self.buffer@.capacity() == grown_capacity(pre.buffer.capacity(), pre.size),
                self.buffer@.capacity() >= pre.size,
                self.buffer@.generation == (if pre.size <= pre.buffer.capacity() {
                    pre.buffer.generation
                } else {
                    (pre.buffer.generation + 1) as nat
                }),
                self.buffer@.size == pre.pending_end(i as int),
                self.buffer@.bytes.subrange(0, pre.buffer.size as int) == pre.buffer.bytes.subrange(
                    0,
                    pre.buffer.size as int,
                ),
                forall|j: int|
                    0 <= j < i ==> self.buffer@.bytes.subrange(
                        (#[trigger] pre.pending[j]).0 as int,
                        (pre.pending[j].0 + pre.pending[j].1.len()) as int,
                    ) == pre.pending[j].1,
            decreases self.pending.len() - i,
        {
            proof {
                pre.lemma_pending_end_monotone(i as int, pre.pending.len() as int);
                pre.lemma_pending_end_monotone(i + 1, pre.pending.len() as int);
                assert(pre.pending[i as int].0 + pre.pending[i as int].1.len() == pre.pending_end(
                    i + 1,
                ));
            }
            let w = &self.pending[i];
            let ghost before = self.buffer@;
            self.buffer.write(w.offset, &w.data);
            proof {
                let j0 = i as int;
                assert(self.buffer@.bytes.subrange(
                    pre.pending[j0].0 as int,
                    (pre.pending[j0].0 + pre.pending[j0].1.len()) as int,
                ) =~= pre.pending[j0].1);
                assert(self.buffer@.bytes.subrange(0, pre.buffer.size as int) =~= before
                    .bytes.subrange(0, pre.buffer.size as int)) by {
                    pre.lemma_pending_end_monotone(0, j0);
                }
                assert forall|j: int|
                    0 <= j < i + 1 implies self.buffer@.bytes.subrange(
                        (#[trigger] pre.pending[j]).0 as int,
                        (pre.pending[j].0 + pre.pending[j].1.len()) as int,
                    ) == pre.pending[j].1 by {
                    if j < j0 {
                        pre.lemma_pending_end_monotone(j + 1, j0);
                        assert(pre.pending[j].0 + pre.pending[j].1.len() == pre.pending_end(j + 1));
                        assert(self.buffer@.bytes.subrange(
                            pre.pending[j].0 as int,
                            (pre.pending[j].0 + pre.pending[j].1.len()) as int,
                        ) =~= before.bytes.subrange(
                            pre.pending[j].0 as int,
                            (pre.pending[j].0 + pre.pending[j].1.len()) as int,
                        ));
                    }
                }
            }
            i += 1;
        }
        self.pending.clear();
        proof {
            assert(self@.pending =~= Seq::<(nat, Seq<u8>)>::empty());
        }
    }
}

/// Queueing a write preserves well-formedness: the new entry starts exactly
/// at the old cursor, so the queued writes stay back to back.
pub proof fn lemma_queue_write_spec_wf(v: PersistentGpuBufferView, data: Seq<u8>)
    requires
        v.wf(),
        v.size + data.len() <= usize::MAX,
    ensures
        queue_write_spec(v, data).wf(),
{
    let post = queue_write_spec(v, data);
    assert forall|i: int| 0 <= i <= post.pending.len() implies post.pending_end(i)
        == v.pending_end(i) || (i == post.pending.len() && post.pending_end(i) == v.size
        + data.len()) by {
        lemma_pending_end_push(v, data, i);
    }
    assert forall|i: int|
        0 <= i < post.pending.len() implies (#[trigger] post.pending[i]).0 == post.pending_end(
        i,
    ) by {
        lemma_pending_end_push(v, data, i);
    }
    lemma_pending_end_push(v, data, post.pending.len() as int);
}

/// `pending_end` over the queue with one write pushed agrees with the
/// original queue on all prefixes, and ends one payload later.
proof fn lemma_pending_end_push(v: PersistentGpuBufferView, data: Seq<u8>, i: int)
    requires
        v.wf(),
        0 <= i <= v.pending.len() + 1,
    ensures
        i <= v.pending.len() ==> queue_write_spec(v, data).pending_end(i) == v.pending_end(i),
        i == v.pending.len() + 1 ==> queue_write_spec(v, data).pending_end(i) == v.size
            + data.len(),
    decreases i,
{
    if i > 0 {
        lemma_pending_end_push(v, data, i - 1);
    }
}

impl PersistentGpuBufferView {
    /// The queued writes sit back to back, so the cursor after `i` writes
    /// never decreases as `i` grows.
    pub proof fn lemma_pending_end_monotone(self, i: int, j: int)
        requires
            0 <= i <= j <= self.pending.len(),
        ensures
            self.pending_end(i) <= self.pending_end(j),
        decreases j - i,
    {
        if i < j {
            self.lemma_pending_end_monotone(i, j - 1);
        }
    }
}

/// The state after a whole sequence of `queue_write` calls, oldest first.
pub open spec fn queue_many(
    v: PersistentGpuBufferView,
    datas: Seq<Seq<u8>>,
) -> PersistentGpuBufferView
    decreases datas.len(),
{
    if datas.len() == 0 {
        v
    } else {
        queue_write_spec(queue_many(v, datas.drop_last()), datas.last())
    }
}

/// Total number of bytes over a sequence of payloads.
pub open spec fn total_len(datas: Seq<Seq<u8>>) -> int
    decreases datas.len(),
{
    if datas.len() == 0 {
        0
    } else {
        total_len(datas.drop_last()) + datas.last().len()
    }
}

/// The byte range that the `i`-th of a sequence of `queue_write` calls
/// returns: it starts at the cursor the previous calls left behind.
pub open spec fn queued_range(v: PersistentGpuBufferView, datas: Seq<Seq<u8>>, i: int) -> (
    int,
    int,
) {
    let start = queue_many(v, datas.take(i)).size as int;
    (start, start + datas[i].len())
}

proof fn lemma_total_len_take_succ(datas: Seq<Seq<u8>>, i: int)
    requires
        0 <= i < datas.len(),
    ensures
        total_len(datas.take(i + 1)) == total_len(datas.take(i)) + datas[i].len(),
{
    assert(datas.take(i + 1).drop_last() =~= datas.take(i));
    assert(datas.take(i + 1).last() == datas[i]);
}

proof fn lemma_total_len_take_monotone(datas: Seq<Seq<u8>>, i: int, j: int)
    requires
        0 <= i <= j <= datas.len(),
    ensures
        total_len(datas.take(i)) <= total_len(datas.take(j)),
    decreases j - i,
{
    if i < j {
        lemma_total_len_take_monotone(datas, i, j - 1);
        lemma_total_len_take_succ(datas, j - 1);
    }
}

/// Queueing payloads advances the cursor by their total length and never
/// touches the backing storage.
pub proof fn lemma_queue_many_size(v: PersistentGpuBufferView, datas: Seq<Seq<u8>>)
    ensures
        queue_many(v, datas).size == v.size + total_len(datas),
        queue_many(v, datas).buffer == v.buffer,
    decreases datas.len(),
{
    if datas.len() > 0 {
        lemma_queue_many_size(v, datas.drop_last());
    }
}

/// Law: across any sequence of `queue_write` calls — in particular on an
/// empty buffer — the returned ranges are placed first-queued-first: each
/// range starts exactly where its predecessor ended, so all ranges are
/// contiguous, non-overlapping, and in increasing queue order.
pub proof fn lemma_queue_write_ranges_sequential(
    v: PersistentGpuBufferView,
    datas: Seq<Seq<u8>>,
    i: int,
    j: int,
)
    requires
        0 <= i < j < datas.len(),
    ensures
        queued_range(v, datas, i).0 <= queued_range(v, datas, i).1,
        queued_range(v, datas, i).1 <= queued_range(v, datas, j).0,
        j == i + 1 ==> queued_range(v, datas, i).1 == queued_range(v, datas, j).0,
{
    lemma_queue_many_size(v, datas.take(i));
    lemma_queue_many_size(v, datas.take(i + 1));
    lemma_queue_many_size(v, datas.take(j));
    lemma_total_len_take_succ(datas, i);
    lemma_total_len_take_monotone(datas, i + 1, j);
}

/// Law (round trip): a payload queued by `queue_write` and then flushed by
/// `perform_writes` reads back byte-identically from the backing storage at
/// the returned range.
pub proof fn lemma_queue_flush_round_trip(
    pre: PersistentGpuBufferView,
    data: Seq<u8>,
    post: PersistentGpuBufferView,
)
    requires
        pre.wf(),
        pre.size + data.len() <= usize::MAX,
        flush_transition(queue_write_spec(pre, data), post),
    ensures
        post.buffer.bytes.subrange(pre.size as int, (pre.size + data.len()) as int) == data,
{
    let mid = queue_write_spec(pre, data);
    let last = mid.pending.len() - 1;
    assert(mid.pending[last] == (pre.size, data));
    assert(post.buffer.bytes.subrange(
        mid.pending[last].0 as int,
        (mid.pending[last].0 + mid.pending[last].1.len()) as int,
    ) == mid.pending[last].1);
}

} // verus!
