use vstd::prelude::*;

use crate::vm::VmError;

verus! {

/// The address of the first byte of every chunk. No address handed out is zero.
pub const CHUNK_BASE: u64 = 0x1000;

/// A block of zero-initialised memory, handed out front to back. Addresses are plain
/// numbers: the chunk's base address plus an offset into its bytes.
pub struct MemoryChunk {
    start: u64,
    memory: Vec<u8>,
    used: usize,
    capacity: usize,
}

/// A piece handed out by [`MemoryChunk::alloc_entry`]: its address and its rounded size.
#[derive(Debug, Clone, Copy, PartialEq, Eq, Structural)]
pub struct AllocEntry {
    pub ptr: u64,
    pub alloc_size: usize,
}

/// The bytes of `s` with `data` written over them from position `o` on.
/// `n` rounded up to the next multiple of 8.
pub open spec fn aligned_size(n: int) -> int {
    (n + 7) / 8 * 8
}

/// A rounded size is a multiple of 8 that exceeds the size by less than 8.
pub proof fn lemma_aligned_size(n: int)
    requires
        0 <= n,
    ensures
        aligned_size(n) % 8 == 0,
        n <= aligned_size(n) < n + 8,
{
}

pub open spec fn overwrite(s: Seq<u8>, o: int, data: Seq<u8>) -> Seq<u8> {
    s.take(o) + data + s.skip(o + data.len())
}

impl MemoryChunk {
    /// The address of the chunk's first byte.
    pub closed spec fn start(&self) -> int {
        self.start as int
    }

    /// The chunk's contents.
    pub closed spec fn bytes(&self) -> Seq<u8> {
        self.memory@
    }

    /// How many bytes have been handed out.
    pub closed spec fn used(&self) -> int {
        self.used as int
    }

    /// The chunk's size.
    pub closed spec fn capacity(&self) -> int {
        self.capacity as int
    }

    /// The chunk's internal consistency.
    pub closed spec fn wf(&self) -> bool {
        &&& self.memory@.len() == self.capacity
        &&& self.start == CHUNK_BASE
        &&& self.used <= self.capacity + 7
        &&& self.start + self.capacity + 8 <= 0x7fff_ffff_ffff_ffff
        &&& self.capacity + 8 <= usize::MAX
    }

    /// What a consistent chunk guarantees about its parts.
    pub proof fn lemma_wf(&self)
        requires
            self.wf(),
        ensures
            self.bytes().len() == self.capacity(),
            self.start() == CHUNK_BASE,
            0 <= self.used() <= self.capacity() + 7,
            self.start() + self.capacity() + 8 <= 0x7fff_ffff_ffff_ffff,
            self.capacity() + 8 <= usize::MAX,
    {
    }

    /// True when `[ptr, ptr + len)` lies inside the chunk.
    pub open spec fn in_bounds(&self, ptr: int, len: int) -> bool {
        &&& self.start() <= ptr
        &&& 0 <= len
        &&& ptr + len <= self.start() + self.capacity()
    }

    /// True when asking for `required_size` bytes does not make the chunk's bookkeeping
    /// overflow.
    pub fn allocation_allowed(&self, required_size: usize) -> (r: bool)
        requires
            self.wf(),
        ensures
            r == (self.used() + required_size <= usize::MAX),
    {
        required_size <= usize::MAX - self.used
    }

    /// True when the `len` bytes from address `ptr` on lie in the chunk.
    pub fn contains(&self, ptr: u64, len: usize) -> (r: bool)
        requires
            self.wf(),
        ensures
            r == self.in_bounds(ptr as int, len as int),
    {
        ptr >= self.start && ptr - self.start <= self.capacity as u64 && len as u64 <= self.capacity as u64 - (ptr - self.start)
    }

    /// A zeroed chunk of `capacity` bytes.
    pub fn new(capacity: usize) -> (r: Self)
        requires
            CHUNK_BASE + capacity + 8 <= 0x7fff_ffff_ffff_ffff,
            capacity + 8 <= usize::MAX,
        ensures
            r.wf(),
            r.start() == CHUNK_BASE,
            r.capacity() == capacity,
            r.used() == 0,
            r.bytes() == Seq::new(capacity as nat, |i: int| 0u8),
    {
        let mut memory: Vec<u8> = Vec::new();
        let mut i: usize = 0;
        while i < capacity
            invariant
                i <= capacity,
                memory@ == Seq::new(i as nat, |j: int| 0u8),
            decreases capacity - i,
        {
            memory.push(0);
            i = i + 1;
            assert(memory@ =~= Seq::new(i as nat, |j: int| 0u8));
        }
        MemoryChunk { start: CHUNK_BASE, memory, used: 0, capacity }
    }

    /// Hands out `required_size` bytes after those already handed out, or nothing when the
    /// request does not fit. Allocations stay aligned to 8 bytes: the size taken up is
    /// `required_size` rounded up to a multiple of 8.
    pub fn alloc_entry(&mut self, required_size: usize) -> (r: Option<AllocEntry>)
        requires
            old(self).wf(),
            old(self).used() + required_size <= usize::MAX,
        ensures
            final(self).wf(),
            final(self).start() == old(self).start(),
            final(self).capacity() == old(self).capacity(),
            final(self).bytes() == old(self).bytes(),
            old(self).used() + required_size > old(self).capacity() ==> r is None && final(self).used() == old(self).used(),
            old(self).used() + required_size <= old(self).capacity() ==> (r matches Some(e) && e.ptr
                == old(self).start() + old(self).used() && e.alloc_size == aligned_size(required_size as int)
                && e.alloc_size % 8 == 0 && required_size <= e.alloc_size < required_size + 8
                && final(self).used() == old(self).used() + e.alloc_size),
    {
        proof {
            lemma_aligned_size(required_size as int);
        }
        if self.used + required_size > self.capacity {
            return None;
        }
        let allocated_size = (required_size + 7) / 8 * 8;
        let ptr = self.start + self.used as u64;
        self.used = self.used + allocated_size;
        Some(AllocEntry { ptr, alloc_size: allocated_size })
    }

    /// Writes the first `bytes` bytes of `data` from address `ptr` on. Writing outside the
    /// chunk is undefined, and a short `data` panics; both are left out by the precondition.
    pub fn put(&mut self, ptr: u64, bytes: usize, data: &[u8]) -> (r: Result<(), VmError>)
        requires
            old(self).wf(),
            old(self).in_bounds(ptr as int, bytes as int),
            bytes <= data@.len(),
        ensures
            r is Ok,
            final(self).wf(),
            final(self).start() == old(self).start(),
            final(self).capacity() == old(self).capacity(),
            final(self).used() == old(self).used(),
            final(self).bytes() == overwrite(
                old(self).bytes(),
                ptr - old(self).start(),
                data@.take(bytes as int),
            ),
    {
        let offset = (ptr - self.start) as usize;
        let ghost before = self.memory@;
        let mut i: usize = 0;
        while i < bytes
            invariant
                self.wf(),
                self.start == old(self).start,
                self.capacity == old(self).capacity,
                self.used == old(self).used,
                before == old(self).memory@,
                before.len() == self.capacity,
                offset + bytes <= self.capacity,
                bytes <= data@.len(),
                i <= bytes,
                self.memory@ == overwrite(before, offset as int, data@.take(i as int)),
            decreases bytes - i,
        {
            let ghost prev = self.memory@;
            self.memory.set(offset + i, data[i]);
            assert(self.memory@ == prev.update(offset + i, data@[i as int]));
            i = i + 1;
            assert(self.memory@.len() == before.len());
            assert forall|k: int| 0 <= k < before.len() implies self.memory@[k] == overwrite(
                before,
                offset as int,
                data@.take(i as int),
            )[k] by {
                if k < offset {
                } else if k < offset + i {
                } else {
                }
            }
            assert(self.memory@ =~= overwrite(before, offset as int, data@.take(i as int)));
        }
        Ok(())
    }

    /// The `bytes` bytes from address `ptr` on. Reading outside the chunk is undefined, so it
    /// is left out by the precondition.
    pub fn get(&self, ptr: u64, bytes: usize) -> (r: Result<Vec<u8>, VmError>)
        requires
            self.wf(),
            self.in_bounds(ptr as int, bytes as int),
        ensures
            r matches Ok(v) && v@ == self.bytes().subrange(
                ptr - self.start(),
                ptr - self.start() + bytes,
            ),
    {
        let offset = (ptr - self.start) as usize;
        let mut out: Vec<u8> = Vec::new();
        let mut i: usize = 0;
        while i < bytes
            invariant
                self.wf(),
                offset + bytes <= self.capacity,
                i <= bytes,
                out@ == self.memory@.subrange(offset as int, offset + i),
            decreases bytes - i,
        {
            out.push(self.memory[offset + i]);
            i = i + 1;
            assert(out@ =~= self.memory@.subrange(offset as int, offset + i));
        }
        Ok(out)
    }

    /// Copies `amount` bytes from address `src` to address `dst`; the two ranges may overlap.
    /// Either range outside the chunk is undefined, so it is left out by the precondition.
    pub fn copy(&mut self, src: u64, dst: u64, amount: usize) -> (r: Result<(), VmError>)
        requires
            old(self).wf(),
            old(self).in_bounds(src as int, amount as int),
            old(self).in_bounds(dst as int, amount as int),
        ensures
            r is Ok,
            final(self).wf(),
            final(self).start() == old(self).start(),
            final(self).capacity() == old(self).capacity(),
            final(self).used() == old(self).used(),
            final(self).bytes() == overwrite(
                old(self).bytes(),
                dst - old(self).start(),
                old(self).bytes().subrange(src - old(self).start(), src - old(self).start() + amount),
            ),
    {
        let data = self.get(src, amount)?;
        self.put(dst, amount, data.as_slice())?;
        proof {
            assert(data@.take(amount as int) =~= data@);
        }
        Ok(())
    }
}

} // verus!
