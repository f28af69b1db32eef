use vstd::prelude::*;

use crate::vm::unsafe_memory::memory_chunk::{aligned_size, overwrite, MemoryChunk, CHUNK_BASE};
use crate::vm::VmError;

pub mod memory_chunk;

verus! {

/// `256` to the power `n`: the number of values `n` bytes can hold.
pub open spec fn byte_power(n: nat) -> int
    decreases n,
{
    if n == 0 {
        1
    } else {
        256 * byte_power((n - 1) as nat)
    }
}

/// The `n` little-endian bytes of `v` (two's complement for negative `v`).
pub open spec fn le_bytes(v: int, n: nat) -> Seq<u8>
    decreases n,
{
    if n == 0 {
        Seq::empty()
    } else {
        seq![(v % 256) as u8] + le_bytes(v / 256, (n - 1) as nat)
    }
}

/// The unsigned value of little-endian bytes.
pub open spec fn le_value(b: Seq<u8>) -> int
    decreases b.len(),
{
    if b.len() == 0 {
        0
    } else {
        b[0] as int + 256 * le_value(b.drop_first())
    }
}

/// The two's complement reading of the `n`-byte unsigned value `u`.
pub open spec fn as_signed(u: int, n: nat) -> int {
    if u >= byte_power(n) / 2 {
        u - byte_power(n)
    } else {
        u
    }
}

pub proof fn lemma_byte_power_values()
    ensures
        byte_power(1) == 0x100,
        byte_power(2) == 0x1_0000,
        byte_power(4) == 0x1_0000_0000,
        byte_power(8) == 0x1_0000_0000_0000_0000,
{
    reveal_with_fuel(byte_power, 9);
}

proof fn lemma_byte_power_pos(n: nat)
    ensures
        byte_power(n) > 0,
    decreases n,
{
    if n > 0 {
        lemma_byte_power_pos((n - 1) as nat);
    }
}

pub proof fn lemma_le_bytes_len(v: int, n: nat)
    ensures
        le_bytes(v, n).len() == n,
    decreases n,
{
    if n > 0 {
        lemma_le_bytes_len(v / 256, (n - 1) as nat);
    }
}

/// Bytes written by [`le_bytes`] read back as the value modulo their range.
pub proof fn lemma_le_roundtrip(v: int, n: nat)
    requires
        0 <= v,
    ensures
        le_value(le_bytes(v, n)) == v % byte_power(n),
    decreases n,
{
    lemma_le_bytes_len(v, n);
    if n == 0 {
    } else {
        let rest = le_bytes(v / 256, (n - 1) as nat);
        lemma_le_roundtrip(v / 256, (n - 1) as nat);
        assert(le_bytes(v, n).drop_first() =~= rest);
        lemma_byte_power_pos((n - 1) as nat);
        vstd::arithmetic::div_mod::lemma_mod_breakdown(v, 256, byte_power((n - 1) as nat));
    }
}

/// The value of `n` little-endian bytes is below `256` to the power `n`.
pub proof fn lemma_le_value_bound(b: Seq<u8>)
    ensures
        0 <= le_value(b) < byte_power(b.len()),
    decreases b.len(),
{
    if b.len() > 0 {
        lemma_le_value_bound(b.drop_first());
    }
}

/// The little-endian bytes of `u`, which must fit in `n` bytes.
fn to_le_bytes(u: u64, n: usize) -> (r: Vec<u8>)
    requires
        n <= 8,
    ensures
        r@ == le_bytes(u as int, n as nat),
{
    let mut out: Vec<u8> = Vec::new();
    let mut x = u;
    let mut i: usize = 0;
    while i < n
        invariant
            i <= n,
            le_bytes(u as int, n as nat) == out@ + le_bytes(x as int, (n - i) as nat),
        decreases n - i,
    {
        out.push((x % 256) as u8);
        proof {
            let tail = le_bytes(x as int / 256, (n - i - 1) as nat);
            assert(le_bytes(x as int, (n - i) as nat) == seq![(x % 256) as u8] + tail);
            assert(out@.drop_last() + (seq![(x % 256) as u8] + tail) =~= out@ + tail);
        }
        x = x / 256;
        i = i + 1;
    }
    assert(out@ + le_bytes(x as int, 0) =~= out@);
    out
}

/// The unsigned value of at most eight little-endian bytes.
fn from_le_bytes(b: &Vec<u8>) -> (r: u64)
    requires
        b@.len() <= 8,
    ensures
        r == le_value(b@),
{
    let n = b.len();
    let mut acc: u64 = 0;
    let mut i: usize = n;
    proof {
        lemma_byte_power_values();
    }
    while i > 0
        invariant
            n == b@.len(),
            n <= 8,
            i <= n,
            acc == le_value(b@.subrange(i as int, n as int)),
            byte_power(8) == 0x1_0000_0000_0000_0000,
        decreases i,
    {
        proof {
            let s = b@.subrange(i - 1, n as int);
            assert(s.drop_first() =~= b@.subrange(i as int, n as int));
            lemma_le_value_bound(s);
            assert(byte_power(s.len()) <= byte_power(8)) by {
                lemma_byte_power_mono(s.len(), 8);
            }
        }
        acc = b[i - 1] as u64 + 256 * acc;
        i = i - 1;
    }
    assert(b@.subrange(0, n as int) =~= b@);
    acc
}

proof fn lemma_byte_power_mono(a: nat, b: nat)
    requires
        a <= b,
    ensures
        byte_power(a) <= byte_power(b),
    decreases b,
{
    if a < b {
        lemma_byte_power_mono(a, (b - 1) as nat);
        lemma_byte_power_pos((b - 1) as nat);
    }
}

/// `value` cut to its lowest `n` bytes, as an unsigned value.
fn unsigned_i32(value: i32, n: usize) -> (r: u64)
    requires
        n == 1 || n == 2 || n == 4,
    ensures
        r as int == unsigned_part(value as int, n as nat),
        (r as int) < byte_power(n as nat),
{
    proof {
        lemma_byte_power_values();
    }
    let wide: u64 = if value < 0 {
        (value as i64 + 0x1_0000_0000) as u64
    } else {
        value as u64
    };
    let m: u64 = if n == 1 {
        0x100
    } else if n == 2 {
        0x1_0000
    } else {
        0x1_0000_0000
    };
    proof {
        let bp = byte_power(n as nat);
        assert(bp == m);
        let k: int = 0x1_0000_0000int / bp;
        assert(bp * k == 0x1_0000_0000);
        if value < 0 {
            vstd::arithmetic::div_mod::lemma_mod_multiples_vanish(k, value as int, bp);
            assert(wide == bp * k + value);
        }
        assert(wide as int % bp == value as int % bp);
    }
    wide % m
}

/// Native memory for Java code: a chunk handed out front to back, with typed reads and
/// writes. Multi-byte values are stored little-endian.
pub struct Unsafe {
    memory: MemoryChunk,
}

/// The size of the chunk every [`Unsafe`] starts with.
pub const UNSAFE_CAPACITY: usize = 52428800;

/// `v` cut to its lowest `n` bytes, as an unsigned value.
pub open spec fn unsigned_part(v: int, n: nat) -> int {
    v % byte_power(n)
}

impl Unsafe {
    /// The memory chunk's state.
    pub closed spec fn chunk(&self) -> MemoryChunk {
        self.memory
    }

    pub open spec fn wf(&self) -> bool {
        self.chunk().wf()
    }

    /// The bytes at `ptr` as the memory holds them now.
    pub open spec fn spec_bytes_at(&self, ptr: int, n: nat) -> Seq<u8> {
        self.chunk().bytes().subrange(ptr - self.chunk().start(), ptr - self.chunk().start() + n)
    }

    /// True when `n` bytes at `ptr` lie in the memory.
    pub open spec fn valid_range(&self, ptr: i64, n: nat) -> bool {
        0 <= ptr && self.chunk().in_bounds(ptr as int, n as int)
    }

    /// True when `new` is `old` with `data` written at `ptr`.
    pub open spec fn written(old: &Unsafe, new: &Unsafe, ptr: int, data: Seq<u8>) -> bool {
        &&& new.wf()
        &&& new.chunk().start() == old.chunk().start()
        &&& new.chunk().capacity() == old.chunk().capacity()
        &&& new.chunk().used() == old.chunk().used()
        &&& new.chunk().bytes() == overwrite(old.chunk().bytes(), ptr - old.chunk().start(), data)
    }

    /// True when asking for `amount` bytes does not make the memory's bookkeeping
    /// overflow (see [`MemoryChunk::allocation_allowed`]).
    pub fn allocation_allowed(&self, amount: usize) -> (r: bool)
        requires
            self.wf(),
        ensures
            r == (self.chunk().used() + amount <= usize::MAX),
    {
        self.memory.allocation_allowed(amount)
    }

    /// True when the `n` bytes at `ptr` lie in the memory, so that they can be read and
    /// written.
    pub fn in_range(&self, ptr: i64, n: usize) -> (r: bool)
        requires
            self.wf(),
        ensures
            r == self.valid_range(ptr, n as nat),
    {
        ptr >= 0 && self.memory.contains(ptr as u64, n)
    }

    /// Fresh native memory of [`UNSAFE_CAPACITY`] zeroed bytes, none handed out yet.
    pub fn new() -> (r: Self)
        ensures
            r.wf(),
            r.chunk().used() == 0,
            r.chunk().capacity() == UNSAFE_CAPACITY,
            r.chunk().start() == CHUNK_BASE,
    {
        Self { memory: MemoryChunk::new(UNSAFE_CAPACITY) }
    }

    /// Hands out `amount` bytes and gives their address, or `-1` when they do not fit (see
    /// [`MemoryChunk::alloc_entry`]).
    pub fn allocate_memory(&mut self, amount: usize) -> (r: i64)
        requires
            old(self).wf(),
            old(self).chunk().used() + amount <= usize::MAX,
        ensures
            final(self).wf(),
            final(self).chunk().bytes() == old(self).chunk().bytes(),
            final(self).chunk().start() == old(self).chunk().start(),
            final(self).chunk().capacity() == old(self).chunk().capacity(),
            old(self).chunk().used() + amount > old(self).chunk().capacity() ==> r == -1
                && final(self).chunk().used() == old(self).chunk().used(),
            old(self).chunk().used() + amount <= old(self).chunk().capacity() ==> r
                == old(self).chunk().start() + old(self).chunk().used() && final(self).chunk().used() == old(self).chunk().used() + aligned_size(amount as int),
    {
        proof {
            self.memory.lemma_wf();
        }
        match self.memory.alloc_entry(amount) {
            Some(entry) => entry.ptr as i64,
            None => -1,
        }
    }

    /// Sets `amount` bytes from `ptr` on to `byte`.
    pub fn set_memory(&mut self, ptr: i64, amount: usize, byte: u8) -> (r: Result<(), VmError>)
        requires
            old(self).wf(),
            old(self).valid_range(ptr, amount as nat),
        ensures
            r is Ok,
            Self::written(old(self), final(self), ptr as int, Seq::new(amount as nat, |i: int| byte)),
    {
        let mut data: Vec<u8> = Vec::new();
        let mut i: usize = 0;
        while i < amount
            invariant
                i <= amount,
                data@ == Seq::new(i as nat, |j: int| byte),
            decreases amount - i,
        {
            data.push(byte);
            i = i + 1;
            assert(data@ =~= Seq::new(i as nat, |j: int| byte));
        }
        assert(data@.take(amount as int) =~= data@);
        self.memory.put(ptr as u64, amount, data.as_slice())
    }

    /// Copies `amount` bytes from `src` to `dst`; the ranges may overlap.
    pub fn copy_memory(&mut self, src: i64, dst: i64, amount: usize) -> (r: Result<(), VmError>)
        requires
            old(self).wf(),
            old(self).valid_range(src, amount as nat),
            old(self).valid_range(dst, amount as nat),
        ensures
            r is Ok,
            Self::written(old(self), final(self), dst as int, old(self).spec_bytes_at(src as int, amount as nat)),
    {
        self.memory.copy(src as u64, dst as u64, amount)
    }

    /// Gives memory back; handed-out memory is never reused, so nothing changes.
    pub fn free_memory(&mut self, ptr: i64)
        ensures
            *final(self) == *old(self),
    {
    }

    /// Writes the lowest `n` bytes of `u` at `ptr`, little-endian.
    fn put_unsigned(&mut self, ptr: i64, n: usize, u: u64) -> (r: Result<(), VmError>)
        requires
            old(self).wf(),
            n <= 8,
            old(self).valid_range(ptr, n as nat),
        ensures
            r is Ok,
            Self::written(old(self), final(self), ptr as int, le_bytes(u as int, n as nat)),
    {
        let bytes = to_le_bytes(u, n);
        proof {
            lemma_le_bytes_len(u as int, n as nat);
            assert(bytes@.take(n as int) =~= bytes@);
        }
        self.memory.put(ptr as u64, n, bytes.as_slice())
    }

    /// Reads `n` bytes at `ptr` as an unsigned little-endian value.
    fn get_unsigned(&self, ptr: i64, n: usize) -> (r: Result<u64, VmError>)
        requires
            self.wf(),
            n <= 8,
            self.valid_range(ptr, n as nat),
        ensures
            r matches Ok(v) && v as int == le_value(self.spec_bytes_at(ptr as int, n as nat)),
    {
        proof {
            self.memory.lemma_wf();
        }
        let bytes = self.memory.get(ptr as u64, n)?;
        Ok(from_le_bytes(&bytes))
    }

    /// Writes `value` cut to a `byte`.
    pub fn put_byte(&mut self, ptr: i64, value: i32) -> (r: Result<(), VmError>)
        requires
            old(self).wf(),
            old(self).valid_range(ptr, 1),
        ensures
            r is Ok,
            Self::written(old(self), final(self), ptr as int, le_bytes(unsigned_part(value as int, 1), 1)),
    {
        let u = unsigned_i32(value, 1);
        self.put_unsigned(ptr, 1, u)
    }

    /// Reads a `byte`, sign-extended.
    pub fn get_byte(&self, ptr: i64) -> (r: Result<i32, VmError>)
        requires
            self.wf(),
            self.valid_range(ptr, 1),
        ensures
            r matches Ok(v) && v as int == as_signed(le_value(self.spec_bytes_at(ptr as int, 1)), 1),
    {
        proof { lemma_byte_power_values(); }
        let u = self.get_unsigned(ptr, 1)?;
        proof {
            self.memory.lemma_wf();
            lemma_le_value_bound(self.spec_bytes_at(ptr as int, 1));
        }
        if u >= 0x80 { Ok(u as i32 - 0x100) } else { Ok(u as i32) }
    }

    /// Writes `value` cut to a `short`.
    pub fn put_short(&mut self, ptr: i64, value: i32) -> (r: Result<(), VmError>)
        requires
            old(self).wf(),
            old(self).valid_range(ptr, 2),
        ensures
            r is Ok,
            Self::written(old(self), final(self), ptr as int, le_bytes(unsigned_part(value as int, 2), 2)),
    {
        let u = unsigned_i32(value, 2);
        self.put_unsigned(ptr, 2, u)
    }

    /// Reads a `short`, sign-extended.
    pub fn get_short(&self, ptr: i64) -> (r: Result<i32, VmError>)
        requires
            self.wf(),
            self.valid_range(ptr, 2),
        ensures
            r matches Ok(v) && v as int == as_signed(le_value(self.spec_bytes_at(ptr as int, 2)), 2),
    {
        proof { lemma_byte_power_values(); }
        let u = self.get_unsigned(ptr, 2)?;
        proof {
            self.memory.lemma_wf();
            lemma_le_value_bound(self.spec_bytes_at(ptr as int, 2));
        }
        if u >= 0x8000 { Ok(u as i32 - 0x1_0000) } else { Ok(u as i32) }
    }

    /// Writes `value` cut to a `char`.
    pub fn put_char(&mut self, ptr: i64, value: i32) -> (r: Result<(), VmError>)
        requires
            old(self).wf(),
            old(self).valid_range(ptr, 2),
        ensures
            r is Ok,
            Self::written(old(self), final(self), ptr as int, le_bytes(unsigned_part(value as int, 2), 2)),
    {
        let u = unsigned_i32(value, 2);
        self.put_unsigned(ptr, 2, u)
    }

    /// Reads a `char`, zero-extended.
    pub fn get_char(&self, ptr: i64) -> (r: Result<i32, VmError>)
        requires
            self.wf(),
            self.valid_range(ptr, 2),
        ensures
            r matches Ok(v) && v as int == le_value(self.spec_bytes_at(ptr as int, 2)),
    {
        proof { lemma_byte_power_values(); }
        let u = self.get_unsigned(ptr, 2)?;
        proof {
            self.memory.lemma_wf();
            lemma_le_value_bound(self.spec_bytes_at(ptr as int, 2));
        }
        Ok(u as i32)
    }

    /// Writes an `int`.
    pub fn put_int(&mut self, ptr: i64, value: i32) -> (r: Result<(), VmError>)
        requires
            old(self).wf(),
            old(self).valid_range(ptr, 4),
        ensures
            r is Ok,
            Self::written(old(self), final(self), ptr as int, le_bytes(unsigned_part(value as int, 4), 4)),
    {
        let u = unsigned_i32(value, 4);
        self.put_unsigned(ptr, 4, u)
    }

    /// Reads an `int`.
    pub fn get_int(&self, ptr: i64) -> (r: Result<i32, VmError>)
        requires
            self.wf(),
            self.valid_range(ptr, 4),
        ensures
            r matches Ok(v) && v as int == as_signed(le_value(self.spec_bytes_at(ptr as int, 4)), 4),
    {
        proof { lemma_byte_power_values(); }
        let u = self.get_unsigned(ptr, 4)?;
        proof {
            self.memory.lemma_wf();
            lemma_le_value_bound(self.spec_bytes_at(ptr as int, 4));
        }
        if u >= 0x8000_0000 { Ok((u as i64 - 0x1_0000_0000) as i32) } else { Ok(u as i32) }
    }

    /// Writes a `long`.
    pub fn put_long(&mut self, ptr: i64, value: i64) -> (r: Result<(), VmError>)
        requires
            old(self).wf(),
            old(self).valid_range(ptr, 8),
        ensures
            r is Ok,
            Self::written(old(self), final(self), ptr as int, le_bytes(unsigned_part(value as int, 8), 8)),
    {
        proof {
            lemma_byte_power_values();
        }
        let u: u64 = if value < 0 {
            (value + 0x7fff_ffff_ffff_ffff + 1) as u64 + 0x8000_0000_0000_0000
        } else {
            value as u64
        };
        proof {
            let bp = byte_power(8);
            if value < 0 {
                vstd::arithmetic::div_mod::lemma_mod_multiples_vanish(1, value as int, bp);
            }
            vstd::arithmetic::div_mod::lemma_small_mod(u as nat, bp as nat);
        }
        self.put_unsigned(ptr, 8, u)
    }

    /// Reads a `long`.
    pub fn get_long(&self, ptr: i64) -> (r: Result<i64, VmError>)
        requires
            self.wf(),
            self.valid_range(ptr, 8),
        ensures
            r matches Ok(v) && v as int == as_signed(le_value(self.spec_bytes_at(ptr as int, 8)), 8),
    {
        proof { lemma_byte_power_values(); }
        let u = self.get_unsigned(ptr, 8)?;
        proof {
            self.memory.lemma_wf();
            lemma_le_value_bound(self.spec_bytes_at(ptr as int, 8));
        }
        if u >= 0x8000_0000_0000_0000 {
            Ok(((u - 0x8000_0000_0000_0000) as i64) - 0x7fff_ffff_ffff_ffff - 1)
        } else {
            Ok(u as i64)
        }
    }

    /// Writes `bytes` from `ptr` on.
    pub fn put_bytes(&mut self, ptr: i64, bytes: &[u8]) -> (r: Result<(), VmError>)
        requires
            old(self).wf(),
            old(self).valid_range(ptr, bytes@.len()),
        ensures
            r is Ok,
            Self::written(old(self), final(self), ptr as int, bytes@),
    {
        assert(bytes@.take(bytes@.len() as int) =~= bytes@);
        self.memory.put(ptr as u64, bytes.len(), bytes)
    }

    /// The `length` bytes from `ptr` on.
    pub fn get_bytes(&self, ptr: i64, length: usize) -> (r: Result<Vec<u8>, VmError>)
        requires
            self.wf(),
            self.valid_range(ptr, length as nat),
        ensures
            r matches Ok(v) && v@ == self.spec_bytes_at(ptr as int, length as nat),
    {
        self.memory.get(ptr as u64, length)
    }
}

} // verus!

verus! {

/// A value that fits in `n` signed bytes, cut to `n` bytes, stored little-endian and read
/// back as signed, is itself.
pub proof fn lemma_signed_roundtrip(value: int, n: nat)
    requires
        n == 1 || n == 2 || n == 4 || n == 8,
        -(byte_power(n) / 2) <= value < byte_power(n) / 2,
    ensures
        as_signed(le_value(le_bytes(unsigned_part(value, n), n)), n) == value,
{
    lemma_byte_power_values();
    let bp = byte_power(n);
    let u = unsigned_part(value, n);
    assert(0 <= u < bp);
    lemma_le_roundtrip(u, n);
    vstd::arithmetic::div_mod::lemma_small_mod(u as nat, bp as nat);
    if value >= 0 {
        vstd::arithmetic::div_mod::lemma_small_mod(value as nat, bp as nat);
    } else {
        vstd::arithmetic::div_mod::lemma_mod_multiples_vanish(1, value, bp);
        vstd::arithmetic::div_mod::lemma_small_mod((bp + value) as nat, bp as nat);
    }
}

/// A value that fits in `n` unsigned bytes, stored little-endian, reads back unchanged.
pub proof fn lemma_unsigned_roundtrip(value: int, n: nat)
    requires
        n == 1 || n == 2 || n == 4 || n == 8,
        0 <= value < byte_power(n),
    ensures
        le_value(le_bytes(unsigned_part(value, n), n)) == value,
{
    lemma_byte_power_values();
    vstd::arithmetic::div_mod::lemma_small_mod(value as nat, byte_power(n) as nat);
    lemma_le_roundtrip(value, n);
}

/// After bytes are written at `ptr`, the memory at `ptr` holds exactly those bytes.
pub proof fn law_read_after_write(before: Unsafe, after: Unsafe, ptr: i64, data: Seq<u8>)
    requires
        before.wf(),
        before.valid_range(ptr, data.len()),
        Unsafe::written(&before, &after, ptr as int, data),
    ensures
        after.spec_bytes_at(ptr as int, data.len()) == data,
{
    before.chunk().lemma_wf();
    let o = ptr - before.chunk().start();
    assert(after.spec_bytes_at(ptr as int, data.len()) =~= data);
}

/// Writing at `ptr` leaves every byte outside the written range as it was.
pub proof fn law_write_leaves_other_bytes(
    before: Unsafe,
    after: Unsafe,
    ptr: i64,
    data: Seq<u8>,
    other: i64,
    len: nat,
)
    requires
        before.wf(),
        before.valid_range(ptr, data.len()),
        before.valid_range(other, len),
        other + len <= ptr || ptr + data.len() <= other,
        Unsafe::written(&before, &after, ptr as int, data),
    ensures
        after.spec_bytes_at(other as int, len) == before.spec_bytes_at(other as int, len),
{
    before.chunk().lemma_wf();
    assert(after.spec_bytes_at(other as int, len) =~= before.spec_bytes_at(other as int, len));
}

/// A `long` written with [`Unsafe::put_long`] is read back by [`Unsafe::get_long`].
pub proof fn law_long_roundtrip(before: Unsafe, after: Unsafe, ptr: i64, value: i64)
    requires
        before.wf(),
        before.valid_range(ptr, 8),
        Unsafe::written(&before, &after, ptr as int, le_bytes(unsigned_part(value as int, 8), 8)),
    ensures
        as_signed(le_value(after.spec_bytes_at(ptr as int, 8)), 8) == value,
{
    lemma_byte_power_values();
    lemma_le_bytes_len(unsigned_part(value as int, 8), 8);
    law_read_after_write(before, after, ptr, le_bytes(unsigned_part(value as int, 8), 8));
    lemma_signed_roundtrip(value as int, 8);
}

/// An `int` written with [`Unsafe::put_int`] is read back by [`Unsafe::get_int`].
pub proof fn law_int_roundtrip(before: Unsafe, after: Unsafe, ptr: i64, value: i32)
    requires
        before.wf(),
        before.valid_range(ptr, 4),
        Unsafe::written(&before, &after, ptr as int, le_bytes(unsigned_part(value as int, 4), 4)),
    ensures
        as_signed(le_value(after.spec_bytes_at(ptr as int, 4)), 4) == value,
{
    lemma_byte_power_values();
    lemma_le_bytes_len(unsigned_part(value as int, 4), 4);
    law_read_after_write(before, after, ptr, le_bytes(unsigned_part(value as int, 4), 4));
    lemma_signed_roundtrip(value as int, 4);
}

/// A `short` written with [`Unsafe::put_short`] is read back by [`Unsafe::get_short`] when
/// it fits in 16 bits.
pub proof fn law_short_roundtrip(before: Unsafe, after: Unsafe, ptr: i64, value: i32)
    requires
        before.wf(),
        before.valid_range(ptr, 2),
        -0x8000 <= value < 0x8000,
        Unsafe::written(&before, &after, ptr as int, le_bytes(unsigned_part(value as int, 2), 2)),
    ensures
        as_signed(le_value(after.spec_bytes_at(ptr as int, 2)), 2) == value,
{
    lemma_byte_power_values();
    lemma_le_bytes_len(unsigned_part(value as int, 2), 2);
    law_read_after_write(before, after, ptr, le_bytes(unsigned_part(value as int, 2), 2));
    lemma_signed_roundtrip(value as int, 2);
}

/// A `char` written with [`Unsafe::put_char`] is read back by [`Unsafe::get_char`] when it
/// fits in 16 unsigned bits.
pub proof fn law_char_roundtrip(before: Unsafe, after: Unsafe, ptr: i64, value: i32)
    requires
        before.wf(),
        before.valid_range(ptr, 2),
        0 <= value < 0x1_0000,
        Unsafe::written(&before, &after, ptr as int, le_bytes(unsigned_part(value as int, 2), 2)),
    ensures
        le_value(after.spec_bytes_at(ptr as int, 2)) == value,
{
    lemma_byte_power_values();
    lemma_le_bytes_len(unsigned_part(value as int, 2), 2);
    law_read_after_write(before, after, ptr, le_bytes(unsigned_part(value as int, 2), 2));
    lemma_unsigned_roundtrip(value as int, 2);
}

/// A `byte` written with [`Unsafe::put_byte`] is read back by [`Unsafe::get_byte`] when it
/// fits in 8 bits.
pub proof fn law_byte_roundtrip(before: Unsafe, after: Unsafe, ptr: i64, value: i32)
    requires
        before.wf(),
        before.valid_range(ptr, 1),
        -0x80 <= value < 0x80,
        Unsafe::written(&before, &after, ptr as int, le_bytes(unsigned_part(value as int, 1), 1)),
    ensures
        as_signed(le_value(after.spec_bytes_at(ptr as int, 1)), 1) == value,
{
    lemma_byte_power_values();
    lemma_le_bytes_len(unsigned_part(value as int, 1), 1);
    law_read_after_write(before, after, ptr, le_bytes(unsigned_part(value as int, 1), 1));
    lemma_signed_roundtrip(value as int, 1);
}

/// The first byte of a stored `long` is its lowest byte, read as signed.
pub proof fn law_long_low_byte(before: Unsafe, after: Unsafe, ptr: i64, value: i64)
    requires
        before.wf(),
        before.valid_range(ptr, 8),
        Unsafe::written(&before, &after, ptr as int, le_bytes(unsigned_part(value as int, 8), 8)),
    ensures
        as_signed(le_value(after.spec_bytes_at(ptr as int, 1)), 1) == as_signed(
            value as int % 256,
            1,
        ),
{
    lemma_byte_power_values();
    let u = unsigned_part(value as int, 8);
    lemma_le_bytes_len(u, 8);
    law_read_after_write(before, after, ptr, le_bytes(u, 8));
    before.chunk().lemma_wf();
    after.chunk().lemma_wf();
    let whole = after.spec_bytes_at(ptr as int, 8);
    let s = after.spec_bytes_at(ptr as int, 1);
    assert(s.len() == 1);
    assert(s[0] == whole[0]);
    assert(le_bytes(u, 8)[0] == (u % 256) as u8);
    vstd::arithmetic::div_mod::lemma_mod_mod(value as int, 256, 0x1_0000_0000_0000);
    assert(u % 256 == value as int % 256);
    assert(s.drop_first() =~= Seq::<u8>::empty());
    assert(le_value(s.drop_first()) == 0);
    assert(le_value(s) == s[0] as int);
}

} // verus!
