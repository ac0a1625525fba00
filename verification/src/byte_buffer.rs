//! Raw, growable, GPU-backed byte storage with copy-on-grow semantics.

use vstd::prelude::*;

verus! {

/// The state of a [`ByteBuffer`] as specifications see it: the allocated
/// bytes, how many of them are committed, and the reallocation generation.
#[verifier::ext_equal]
pub ghost struct ByteBufferView {
    /// Every allocated byte; the first `size` of them are committed.
    pub bytes: Seq<u8>,
    /// Number of committed bytes (the high-water mark of writes).
    pub size: nat,
    /// How often the buffer has been reallocated. A reallocation invalidates
    /// any handle built against the previous allocation, so callers detect
    /// staleness by comparing generations rather than holding a raw handle.
    pub generation: nat,
}

impl ByteBufferView {
    /// Allocated capacity in bytes.
    pub open spec fn capacity(self) -> nat {
        self.bytes.len()
    }

    /// Well-formedness. The bound `generation <= capacity` holds because
    /// every reallocation strictly enlarges the buffer, starting from an
    /// empty one; it keeps the generation counter from ever wrapping.
    pub open spec fn wf(self) -> bool {
        &&& self.size <= self.capacity()
        &&& self.capacity() <= usize::MAX
        &&& self.generation <= self.capacity()
    }
}

/// The capacity after a reservation that must make room for `needed` bytes:
/// growth at least doubles the allocation (clamped to the address space), so
/// the amortized copy cost stays O(1) per byte over the buffer's lifetime.
pub open spec fn grown_capacity(cap: nat, needed: nat) -> nat
    recommends
        needed <= usize::MAX,
{
    if needed <= cap {
        cap
    } else if 2 * cap <= usize::MAX {
        if needed >= 2 * cap {
            needed
        } else {
            2 * cap
        }
    } else {
        usize::MAX as nat
    }
}

/// Raw, growable byte storage standing for one GPU-side buffer. Committed
/// bytes survive growth at the same offsets (copy-on-grow); only the buffer
/// identity — tracked by the generation counter — changes.
pub struct ByteBuffer {
    contents: Vec<u8>,
    size: usize,
    generation: u64,
}

impl View for ByteBuffer {
    type V = ByteBufferView;

    closed spec fn view(&self) -> ByteBufferView {
        ByteBufferView {
            bytes: self.contents@,
            size: self.size as nat,
            generation: self.generation as nat,
        }
    }
}

impl ByteBuffer {
    /// An empty buffer: nothing allocated, nothing committed.
    pub fn new() -> (b: ByteBuffer)
        ensures
            b@.wf(),
            b@.size == 0,
            b@.capacity() == 0,
            b@.generation == 0,
    {
        ByteBuffer { contents: Vec::new(), size: 0, generation: 0 }
    }

    /// Number of committed bytes.
    pub fn size(&self) -> (n: usize)
        ensures
            n == self@.size,
    {
        self.size
    }

    /// Allocated capacity in bytes.
    pub fn capacity(&self) -> (n: usize)
        ensures
            n == self@.capacity(),
    {
        self.contents.len()
    }

    /// The reallocation generation of the current allocation.
    pub fn generation(&self) -> (g: u64)
        ensures
            g == self@.generation,
    {
        self.generation
    }

    /// Reads one committed byte.
    pub fn read_byte(&self, i: usize) -> (b: u8)
        requires
            self@.wf(),
            i < self@.size,
        ensures
            b == self@.bytes[i as int],
    {
        self.contents[i]
    }

    /// Ensures capacity for `size + additional` bytes, reallocating with at
    /// least geometric growth when the current allocation is too small.
    /// Committed bytes are copied over unchanged, at unchanged offsets; a
    /// reallocation bumps the generation by exactly one.
    pub fn reserve(&mut self, additional: usize)
        requires
            old(self)@.wf(),
            old(self)@.size + additional <= usize::MAX,
        ensures
            final(self)@.wf(),
            final(self)@.size == old(self)@.size,
            final(self)@.capacity() == grown_capacity(
                old(self)@.capacity(),
                (old(self)@.size + additional) as nat,
            ),
            final(self)@.capacity() >= old(self)@.size + additional,
            final(self)@.bytes.subrange(0, old(self)@.size as int) == old(self)@.bytes.subrange(
                0,
                old(self)@.size as int,
            ),
            old(self)@.size + additional <= old(self)@.capacity() ==> final(self)@ == old(self)@,
            old(self)@.size + additional > old(self)@.capacity() ==> final(self)@.generation == old(
                self,
            )@.generation + 1,
    {
        let needed = self.size + additional;
        if self.contents.len() < needed {
            let doubled = if self.contents.len() <= usize::MAX / 2 {
                2 * self.contents.len()
            } else {
                usize::MAX
            };
            let target = if needed >= doubled {
                needed
            } else {
                doubled
            };
            let mut new_contents: Vec<u8> = Vec::with_capacity(target);
            let mut i: usize = 0;
            while i < self.contents.len()
                invariant
                    i <= self.contents.len(),
                    new_contents@ == self.contents@.subrange(0, i as int),
                decreases self.contents.len() - i,
            {
                new_contents.push(self.contents[i]);
                i += 1;
                proof {
                    assert(new_contents@ =~= self.contents@.subrange(0, i as int));
                }
            }
            proof {
                assert(new_contents@ =~= self.contents@);
            }
            while new_contents.len() < target
                invariant
                    new_contents@.subrange(0, self.contents@.len() as int) == self.contents@,
                    new_contents@.len() >= self.contents@.len(),
                    new_contents@.len() <= target,
                decreases target - new_contents.len(),
            {
                new_contents.push(0);
                proof {
                    assert(new_contents@.subrange(0, self.contents@.len() as int)
                        =~= old(self).contents@);
                }
            }
            self.contents = new_contents;
            self.generation = self.generation + 1;
            proof {
                assert(final(self)@.bytes.subrange(0, old(self)@.size as int) =~= old(
                    self,
                )@.bytes.subrange(0, old(self)@.size as int));
            }
        }
    }

    /// Overwrites `data.len()` bytes starting at `offset`, which must lie
    /// within the allocated capacity. All other bytes are untouched; the
    /// committed size extends to cover the written range.
    pub fn write(&mut self, offset: usize, data: &Vec<u8>)
        requires
            old(self)@.wf(),
            offset + data@.len() <= old(self)@.capacity(),
        ensures
            final(self)@.wf(),
            final(self)@.capacity() == old(self)@.capacity(),
            final(self)@.generation == old(self)@.generation,
            final(self)@.size == if offset + data@.len() > old(self)@.size {
                (offset + data@.len()) as nat
            } else {
                old(self)@.size
            },
            forall|i: int|
                0 <= i < old(self)@.capacity() ==> final(self)@.bytes[i] == (if offset <= i < offset
                    + data@.len() {
                    data@[i - offset]
                } else {
                    old(self)@.bytes[i]
                }),
    {
        let mut i: usize = 0;
        while i < data.len()
            invariant
                i <= data@.len(),
                offset + data@.len() <= self.contents@.len(),
                offset + data@.len() <= usize::MAX,
                self.contents@.len() == old(self).contents@.len(),
                self.size == old(self).size,
                self.generation == old(self).generation,
                forall|j: int|
                    0 <= j < self.contents@.len() ==> self.contents@[j] == (if offset <= j < offset
                        + i {
                        data@[j - offset]
                    } else {
                        old(self).contents@[j]
                    }),
            decreases data@.len() - i,
        {
            self.contents[offset + i] = data[i];
            i += 1;
        }
        if offset + data.len() > self.size {
            self.size = offset + data.len();
        }
    }
}

} // verus!
