use vstd::prelude::*;

verus! {

/// A value read from a class file: one, two or four bytes wide.
#[derive(Clone, Copy, PartialEq, Eq, Structural, Debug)]
pub enum ByteType {
    U1(u8),
    U2(u16),
    U4(u32),
}

impl ByteType {
    /// The numeric value, widened to 32 bits.
    pub open spec fn spec_value(self) -> u32 {
        match self {
            ByteType::U1(v) => v as u32,
            ByteType::U2(v) => v as u32,
            ByteType::U4(v) => v,
        }
    }

    /// The numeric value, widened to 32 bits.
    pub fn into_u32(self) -> (r: u32)
        ensures
            r == self.spec_value(),
    {
        match self {
            ByteType::U1(v) => v as u32,
            ByteType::U2(v) => v as u32,
            ByteType::U4(v) => v,
        }
    }
}

/// The big-endian 16-bit value of two bytes.
pub open spec fn be_u16(b1: u8, b2: u8) -> u16 {
    (b1 as int * 256 + b2 as int) as u16
}

/// The big-endian 32-bit value of four bytes.
pub open spec fn be_u32(b1: u8, b2: u8, b3: u8, b4: u8) -> u32 {
    (b1 as int * 16777216 + b2 as int * 65536 + b3 as int * 256 + b4 as int) as u32
}

/// Reads the byte at `*pos` and moves past it. The stream must not be exhausted.
pub fn read_byte(bytes: &[u8], pos: &mut usize) -> (r: u8)
    requires
        *old(pos) < bytes@.len(),
    ensures
        r == bytes@[*old(pos) as int],
        *final(pos) == *old(pos) + 1,
{
    let b = bytes[*pos];
    *pos = *pos + 1;
    b
}

/// Reads one byte.
pub fn parse_u1(bytes: &[u8], pos: &mut usize) -> (r: ByteType)
    requires
        *old(pos) < bytes@.len(),
    ensures
        r == ByteType::U1(bytes@[*old(pos) as int]),
        *final(pos) == *old(pos) + 1,
{
    ByteType::U1(read_byte(bytes, pos))
}

/// Reads a big-endian 16-bit value.
pub fn parse_u2(bytes: &[u8], pos: &mut usize) -> (r: ByteType)
    requires
        *old(pos) + 2 <= bytes@.len(),
    ensures
        r == ByteType::U2(be_u16(bytes@[*old(pos) as int], bytes@[*old(pos) + 1])),
        *final(pos) == *old(pos) + 2,
{
    let b1 = read_byte(bytes, pos);
    let b2 = read_byte(bytes, pos);
    ByteType::U2(b1 as u16 * 256 + b2 as u16)
}

/// Reads a big-endian 32-bit value.
pub fn parse_u4(bytes: &[u8], pos: &mut usize) -> (r: ByteType)
    requires
        *old(pos) + 4 <= bytes@.len(),
    ensures
        r == ByteType::U4(
            be_u32(
                bytes@[*old(pos) as int],
                bytes@[*old(pos) + 1],
                bytes@[*old(pos) + 2],
                bytes@[*old(pos) + 3],
            ),
        ),
        *final(pos) == *old(pos) + 4,
{
    let b1 = read_byte(bytes, pos);
    let b2 = read_byte(bytes, pos);
    let b3 = read_byte(bytes, pos);
    let b4 = read_byte(bytes, pos);
    ByteType::U4(b1 as u32 * 16777216 + b2 as u32 * 65536 + b3 as u32 * 256 + b4 as u32)
}

/// Reads a two-byte value from already split class-file data: either two one-byte entries,
/// joined big-endian (moving past both), or one two-byte entry (moving past it). Any other
/// shape panics, so it is left out by the precondition.
pub fn read_u2(bytes: &Vec<ByteType>, offset: &mut usize) -> (r: ByteType)
    requires
        *old(offset) < bytes@.len(),
        !(bytes@[*old(offset) as int] is U4),
        bytes@[*old(offset) as int] is U1 ==> *old(offset) + 1 < bytes@.len() && bytes@[*old(offset)
            + 1] is U1,
    ensures
        match bytes@[*old(offset) as int] {
            ByteType::U1(v1) => r == ByteType::U2(
                be_u16(v1, bytes@[*old(offset) + 1]->U1_0),
            ) && *final(offset) == *old(offset) + 2,
            other => r == other && *final(offset) == *old(offset) + 1,
        },
{
    let len = bytes.len();
    assert(*offset < len);
    let byte = bytes[*offset];
    match byte {
        ByteType::U1(val1) => {
            if let ByteType::U1(val2) = bytes[*offset + 1] {
                *offset = *offset + 2;
                ByteType::U2(val1 as u16 * 256 + val2 as u16)
            } else {
                proof {
                    assert(false);
                }
                byte
            }
        },
        ByteType::U2(_) => {
            *offset = *offset + 1;
            byte
        },
        ByteType::U4(_) => {
            proof {
                assert(false);
            }
            byte
        },
    }
}

/// Reads a four-byte value from already split class-file data: either four entries starting
/// with a one-byte entry, whose values are each cut to their lowest byte and joined
/// big-endian (moving past all four), or one four-byte entry (moving past it). A two-byte
/// entry at `offset` panics, so it is left out by the precondition.
pub fn read_u4(bytes: &Vec<ByteType>, offset: &mut usize) -> (r: ByteType)
    requires
        *old(offset) < bytes@.len(),
        !(bytes@[*old(offset) as int] is U2),
        bytes@[*old(offset) as int] is U1 ==> *old(offset) + 3 < bytes@.len(),
    ensures
        match bytes@[*old(offset) as int] {
            ByteType::U1(v1) => r == ByteType::U4(
                be_u32(
                    v1,
                    (bytes@[*old(offset) + 1].spec_value() % 256) as u8,
                    (bytes@[*old(offset) + 2].spec_value() % 256) as u8,
                    (bytes@[*old(offset) + 3].spec_value() % 256) as u8,
                ),
            ) && *final(offset) == *old(offset) + 4,
            other => r == other && *final(offset) == *old(offset) + 1,
        },
{
    let len = bytes.len();
    assert(*offset < len);
    let byte = bytes[*offset];
    match byte {
        ByteType::U1(val1) => {
            let val2 = bytes[*offset + 1].into_u32();
            let val3 = bytes[*offset + 2].into_u32();
            let val4 = bytes[*offset + 3].into_u32();
            *offset = *offset + 4;
            let b2 = (val2 % 256) as u8;
            let b3 = (val3 % 256) as u8;
            let b4 = (val4 % 256) as u8;
            ByteType::U4(val1 as u32 * 16777216 + b2 as u32 * 65536 + b3 as u32 * 256 + b4 as u32)
        },
        ByteType::U2(_) => {
            proof {
                assert(false);
            }
            byte
        },
        ByteType::U4(_) => {
            *offset = *offset + 1;
            byte
        },
    }
}

} // verus!
