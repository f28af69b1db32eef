use vstd::prelude::*;

use crate::error::ClassParseError;
use crate::vm::VmError;

pub mod instruction;

pub use instruction::{Instruction, InstructionModel, OperandLayout};
use instruction::{
    branch_instruction, invoke_instruction, operand_layout, plain_instruction, u1_instruction,
    u2_instruction,
};

verus! {

// ---------------------------------------------------------------------------
// Reading numbers out of a method's code
// ---------------------------------------------------------------------------

/// The unsigned big-endian 16-bit value stored at `i`.
pub open spec fn u2_at(code: Seq<u8>, i: int) -> int {
    code[i] as int * 256 + code[i + 1] as int
}

/// The unsigned big-endian 32-bit value stored at `i`.
pub open spec fn u4_at(code: Seq<u8>, i: int) -> int {
    code[i] as int * 16777216 + code[i + 1] as int * 65536 + code[i + 2] as int * 256
        + code[i + 3] as int
}

/// The two's complement reading of an 8-bit pattern.
pub open spec fn as_i8(v: int) -> int {
    if v >= 128 {
        v - 256
    } else {
        v
    }
}

/// The two's complement reading of a 16-bit pattern.
pub open spec fn as_i16(v: int) -> int {
    if v >= 32768 {
        v - 65536
    } else {
        v
    }
}

/// The two's complement reading of a 32-bit pattern.
pub open spec fn as_i32(v: int) -> int {
    if v >= 0x8000_0000 {
        v - 0x1_0000_0000
    } else {
        v
    }
}

/// The signed big-endian 32-bit value stored at `i`.
pub open spec fn i4_at(code: Seq<u8>, i: int) -> int {
    as_i32(u4_at(code, i))
}

pub open spec fn in_i16(v: int) -> bool {
    -32768 <= v <= 32767
}

pub open spec fn in_i32(v: int) -> bool {
    -0x8000_0000 <= v <= 0x7fff_ffff
}

/// The number of padding bytes after a switch opcode whose operands would start at `p`,
/// so that they start at a multiple of four.
pub open spec fn switch_padding(p: int) -> int {
    (4 - p % 4) % 4
}

/// The error every decoding function reports when the code ends too early.
pub open spec fn read_error() -> VmError {
    VmError::ParseError(ClassParseError::ReadError)
}

// ---------------------------------------------------------------------------
// What decoding one instruction yields
// ---------------------------------------------------------------------------

/// The outcome of decoding the instruction that starts at some position.
pub enum Decoded {
    /// The instruction, and the position just after it.
    Instr(InstructionModel, int),
    /// The code ended before the instruction was complete.
    EndOfCode,
    /// The decoder panics: the opcode is not handled, or a computed value overflows.
    Unsupported,
}

/// The outcome of reading the (match, target) pairs of a `lookupswitch`.
pub enum PairsOutcome {
    /// The pairs, flattened, and the position after the last one.
    Read(Seq<int>, int),
    EndOfCode,
    Unsupported,
}

/// Reads `k` pairs of a `lookupswitch` starting at `pos`; each target is
/// `base + offset`, which must fit in 32 bits.
pub open spec fn lookup_pairs(code: Seq<u8>, pos: int, k: int, base: int) -> PairsOutcome
    decreases k,
{
    if k <= 0 {
        PairsOutcome::Read(Seq::empty(), pos)
    } else if pos + 4 > code.len() {
        PairsOutcome::EndOfCode
    } else if pos + 8 > code.len() {
        PairsOutcome::EndOfCode
    } else {
        let m = i4_at(code, pos);
        let t = base + i4_at(code, pos + 4);
        if !in_i32(t) {
            PairsOutcome::Unsupported
        } else {
            match lookup_pairs(code, pos + 8, k - 1, base) {
                PairsOutcome::Read(rest, end) => PairsOutcome::Read(seq![m, t] + rest, end),
                other => other,
            }
        }
    }
}

/// Decodes a `tableswitch` whose opcode stands at `pc`.
pub open spec fn decode_tableswitch(code: Seq<u8>, pc: int) -> Decoded {
    let p = pc + 1;
    let q = p + switch_padding(p);
    if q + 12 > code.len() {
        Decoded::EndOfCode
    } else {
        let default = i4_at(code, q);
        let low = i4_at(code, q + 4);
        let high = i4_at(code, q + 8);
        let diff = high - low;
        if !in_i32(diff) || !in_i32(diff + 1) {
            Decoded::Unsupported
        } else {
            let n = if diff + 1 > 0 {
                diff + 1
            } else {
                0
            };
            if q + 12 + 4 * n > code.len() {
                Decoded::EndOfCode
            } else {
                Decoded::Instr(
                    instruction::model(
                        0xaa,
                        seq![default, low, high] + Seq::new(
                            n as nat,
                            |k: int| i4_at(code, q + 12 + 4 * k),
                        ),
                    ),
                    q + 12 + 4 * n,
                )
            }
        }
    }
}

/// The opcode's position truncated to a signed 32-bit value.
pub open spec fn pc_as_i32(pc: int) -> int {
    as_i32(pc % 0x1_0000_0000)
}

/// Decodes a `lookupswitch` whose opcode stands at `pc`: the default target and every
/// pair's target are made absolute by adding the opcode's position.
pub open spec fn decode_lookupswitch(code: Seq<u8>, pc: int) -> Decoded {
    let p = pc + 1;
    let q = p + switch_padding(p);
    let base = pc_as_i32(pc);
    if q + 4 > code.len() {
        Decoded::EndOfCode
    } else {
        let default = base + i4_at(code, q);
        if !in_i32(default) {
            Decoded::Unsupported
        } else if q + 8 > code.len() {
            Decoded::EndOfCode
        } else {
            match lookup_pairs(code, q + 8, i4_at(code, q + 4), base) {
                PairsOutcome::Read(pairs, end) => Decoded::Instr(
                    instruction::model(0xab, seq![default] + pairs),
                    end,
                ),
                PairsOutcome::EndOfCode => Decoded::EndOfCode,
                PairsOutcome::Unsupported => Decoded::Unsupported,
            }
        }
    }
}

/// The absolute target of a branch at `pc` whose 16-bit offset is `raw`: the opcode's
/// position, truncated to 16 bits and read as signed, plus the signed offset.
pub open spec fn branch_target(pc: int, raw: int) -> int {
    as_i16(pc % 65536) + as_i16(raw)
}

/// A signed 16-bit value read back as unsigned.
pub open spec fn as_u16(v: int) -> int {
    if v < 0 {
        v + 65536
    } else {
        v
    }
}

/// Decodes the instruction whose opcode stands at `pc`.
pub open spec fn spec_decode(code: Seq<u8>, pc: int) -> Decoded {
    if pc < 0 || pc >= code.len() {
        Decoded::EndOfCode
    } else {
        let op = code[pc];
        let p = pc + 1;
        match instruction::spec_layout(op) {
            OperandLayout::Plain => Decoded::Instr(instruction::model(op, Seq::empty()), p),
            OperandLayout::U1 => if p + 1 <= code.len() {
                Decoded::Instr(instruction::model(op, seq![code[p] as int]), p + 1)
            } else {
                Decoded::EndOfCode
            },
            OperandLayout::U2 => if p + 2 <= code.len() {
                Decoded::Instr(instruction::model(op, seq![u2_at(code, p)]), p + 2)
            } else {
                Decoded::EndOfCode
            },
            OperandLayout::Offset => if p + 2 <= code.len() {
                let t = branch_target(pc, u2_at(code, p));
                if in_i16(t) {
                    Decoded::Instr(instruction::model(op, seq![as_u16(t)]), p + 2)
                } else {
                    Decoded::Unsupported
                }
            } else {
                Decoded::EndOfCode
            },
            OperandLayout::U2U1U1 => if p + 4 <= code.len() {
                Decoded::Instr(
                    instruction::model(op, seq![u2_at(code, p), code[p + 2] as int, code[p + 3] as int]),
                    p + 4,
                )
            } else {
                Decoded::EndOfCode
            },
            OperandLayout::U1I1 => if p + 2 <= code.len() {
                Decoded::Instr(instruction::model(op, seq![code[p] as int, as_i8(code[p + 1] as int)]), p + 2)
            } else {
                Decoded::EndOfCode
            },
            OperandLayout::TableSwitch => decode_tableswitch(code, pc),
            OperandLayout::LookupSwitch => decode_lookupswitch(code, pc),
            OperandLayout::Unsupported => Decoded::Unsupported,
        }
    }
}

// ---------------------------------------------------------------------------
// Decoding a whole method body
// ---------------------------------------------------------------------------

/// Decodes instructions one after another from `pc` until one cannot be read.
/// `Some((items, stop))` lists each instruction with the position of its opcode and gives
/// the position where decoding stopped; `None` when the decoder would panic on the way.
pub open spec fn decode_stream(code: Seq<u8>, pc: int) -> Option<(Seq<(int, InstructionModel)>, int)>
    decreases code.len() - pc,
{
    if pc < 0 || pc >= code.len() {
        Some((Seq::empty(), pc))
    } else {
        match spec_decode(code, pc) {
            Decoded::Instr(m, next) => if pc < next && next <= code.len() {
                match decode_stream(code, next) {
                    Some((rest, stop)) => Some((seq![(pc, m)] + rest, stop)),
                    None => None,
                }
            } else {
                None
            },
            Decoded::EndOfCode => Some((Seq::empty(), pc)),
            Decoded::Unsupported => None,
        }
    }
}

/// True when the whole of `code` decodes, instruction after instruction, to its very end.
pub open spec fn decodes_fully(code: Seq<u8>) -> bool {
    &&& decode_stream(code, 0) is Some
    &&& decode_stream(code, 0)->Some_0.1 == code.len()
}

/// The decoded instructions of `code`, each with the position of its opcode.
pub open spec fn decoded_items(code: Seq<u8>) -> Seq<(int, InstructionModel)> {
    decode_stream(code, 0)->Some_0.0
}

pub proof fn lemma_lookup_pairs_end(code: Seq<u8>, pos: int, k: int, base: int)
    requires
        0 <= pos,
    ensures
        match lookup_pairs(code, pos, k, base) {
            PairsOutcome::Read(s, e) => pos <= e <= code.len() || (k <= 0 && e == pos),
            _ => true,
        },
    decreases k,
{
    if k > 0 && pos + 8 <= code.len() {
        lemma_lookup_pairs_end(code, pos + 8, k - 1, base);
    }
}

/// A decoded instruction always ends after its opcode and within the code.
pub proof fn lemma_decode_advances(code: Seq<u8>, pc: int)
    requires
        0 <= pc,
    ensures
        spec_decode(code, pc) matches Decoded::Instr(_, next) ==> pc < next <= code.len(),
{
    if 0 <= pc < code.len() && instruction::spec_layout(code[pc]) == OperandLayout::LookupSwitch {
        let p = pc + 1;
        let q = p + switch_padding(p);
        if q + 8 <= code.len() {
            lemma_lookup_pairs_end(code, q + 8, i4_at(code, q + 4), pc_as_i32(pc));
        }
    }
}

// ---------------------------------------------------------------------------
// Executable decoding
// ---------------------------------------------------------------------------

fn parse_u1(code_bytes: &Vec<u8>, pc: &mut usize) -> (r: Result<u8, VmError>)
    ensures
        match r {
            Ok(b) => {
                &&& *old(pc) < code_bytes.len()
                &&& b == code_bytes@[*old(pc) as int]
                &&& *final(pc) == *old(pc) + 1
            },
            Err(e) => *old(pc) >= code_bytes.len() && e == read_error() && *final(pc) == *old(pc),
        },
{
    if *pc < code_bytes.len() {
        let res = code_bytes[*pc];
        *pc = *pc + 1;
        Ok(res)
    } else {
        Err(VmError::ParseError(ClassParseError::ReadError))
    }
}

fn parse_i1(code_bytes: &Vec<u8>, pc: &mut usize) -> (r: Result<i8, VmError>)
    ensures
        match r {
            Ok(b) => {
                &&& *old(pc) < code_bytes.len()
                &&& b as int == as_i8(code_bytes@[*old(pc) as int] as int)
                &&& *final(pc) == *old(pc) + 1
            },
            Err(e) => *old(pc) >= code_bytes.len() && e == read_error(),
        },
{
    let u = parse_u1(code_bytes, pc)?;
    if u >= 128 {
        Ok((u as i16 - 256) as i8)
    } else {
        Ok(u as i8)
    }
}

fn parse_u2(code_bytes: &Vec<u8>, pc: &mut usize) -> (r: Result<u16, VmError>)
    ensures
        match r {
            Ok(v) => {
                &&& *old(pc) + 2 <= code_bytes.len()
                &&& v as int == u2_at(code_bytes@, *old(pc) as int)
                &&& *final(pc) == *old(pc) + 2
            },
            Err(e) => *old(pc) + 2 > code_bytes.len() && e == read_error(),
        },
{
    let b1 = parse_u1(code_bytes, pc)?;
    let b2 = parse_u1(code_bytes, pc)?;
    Ok(b1 as u16 * 256 + b2 as u16)
}

fn parse_i4(code_bytes: &Vec<u8>, pc: &mut usize) -> (r: Result<i32, VmError>)
    ensures
        match r {
            Ok(v) => {
                &&& *old(pc) + 4 <= code_bytes.len()
                &&& v as int == i4_at(code_bytes@, *old(pc) as int)
                &&& *final(pc) == *old(pc) + 4
            },
            Err(e) => *old(pc) + 4 > code_bytes.len() && e == read_error(),
        },
{
    let b1 = parse_u1(code_bytes, pc)?;
    let b2 = parse_u1(code_bytes, pc)?;
    let b3 = parse_u1(code_bytes, pc)?;
    let b4 = parse_u1(code_bytes, pc)?;
    let u: u32 = b1 as u32 * 16777216 + b2 as u32 * 65536 + b3 as u32 * 256 + b4 as u32;
    if u >= 0x8000_0000 {
        Ok(((u - 0x8000_0000) as i32) - 0x7fff_ffff - 1)
    } else {
        Ok(u as i32)
    }
}

/// Reads a branch offset and turns it into an absolute target; `pc` stands just after
/// the opcode.
fn parse_offset(code_bytes: &Vec<u8>, pc: &mut usize) -> (r: Result<u16, VmError>)
    requires
        *old(pc) >= 1,
        *old(pc) + 2 <= code_bytes.len() ==> in_i16(
            branch_target(*old(pc) - 1, u2_at(code_bytes@, *old(pc) as int)),
        ),
    ensures
        match r {
            Ok(v) => {
                &&& *old(pc) + 2 <= code_bytes.len()
                &&& v as int == as_u16(
                    branch_target(*old(pc) - 1, u2_at(code_bytes@, *old(pc) as int)),
                )
                &&& *final(pc) == *old(pc) + 2
            },
            Err(e) => *old(pc) + 2 > code_bytes.len() && e == read_error(),
        },
{
    let instruction_pc = *pc - 1;
    let offset = parse_u2(code_bytes, pc)?;
    let low = (instruction_pc % 65536) as i32;
    let ipc: i32 = if low >= 32768 {
        low - 65536
    } else {
        low
    };
    let off: i32 = if offset >= 32768 {
        offset as i32 - 65536
    } else {
        offset as i32
    };
    let sum = ipc + off;
    if sum < 0 {
        Ok((sum + 65536) as u16)
    } else {
        Ok(sum as u16)
    }
}

/// Decodes a `tableswitch`; `pc` stands just after its opcode.
fn parse_tableswitch(code_bytes: &Vec<u8>, pc: usize) -> (r: Result<(Instruction, usize), VmError>)
    requires
        pc >= 1,
        !(decode_tableswitch(code_bytes@, pc - 1) is Unsupported),
    ensures
        match decode_tableswitch(code_bytes@, pc - 1) {
            Decoded::Instr(m, next) => r matches Ok((i, n)) && i@ == m && n == next,
            _ => r matches Err(e) && e == read_error(),
        },
{
    let ghost code = code_bytes@;
    let ghost p = pc as int;
    let ghost q = p + switch_padding(p);
    let ghost outcome = decode_tableswitch(code, p - 1);
    let mut pos = pc;
    let padding = (4 - (pc % 4)) % 4;
    let mut i: usize = 0;
    while i < padding
        invariant
            p == pc as int,
            q == p + padding,
            padding == switch_padding(p),
            i <= padding,
            pos == p + i,
            code == code_bytes@,
            outcome == decode_tableswitch(code, p - 1),
        decreases padding - i,
    {
        let _ = parse_u1(code_bytes, &mut pos)?;
        i = i + 1;
    }
    let default = parse_i4(code_bytes, &mut pos)?;
    let low = parse_i4(code_bytes, &mut pos)?;
    let high = parse_i4(code_bytes, &mut pos)?;
    let count: i64 = high as i64 - low as i64 + 1;
    let ghost n = if count > 0 {
        count as int
    } else {
        0
    };
    assert(!(outcome is Unsupported));
    let mut offsets: Vec<i32> = Vec::new();
    let mut k: i64 = 0;
    while k < count
        invariant
            p == pc as int,
            code == code_bytes@,
            outcome == decode_tableswitch(code, p - 1),
            q == p + switch_padding(p),
            q + 12 <= code.len(),
            default as int == i4_at(code, q),
            low as int == i4_at(code, q + 4),
            high as int == i4_at(code, q + 8),
            count == high - low + 1,
            n == if count > 0 { count as int } else { 0 },
            0 <= k,
            k <= n,
            pos == q + 12 + 4 * k,
            pos <= code.len(),
            offsets@.len() == k,
            forall|j: int| 0 <= j < k ==> offsets@[j] as int == i4_at(code, q + 12 + 4 * j),
        decreases count - k,
    {
        let off = parse_i4(code_bytes, &mut pos)?;
        offsets.push(off);
        k = k + 1;
    }
    proof {
        let expected = Seq::new(n as nat, |j: int| i4_at(code, q + 12 + 4 * j));
        assert(offsets@.map_values(|x: i32| x as int) =~= expected);
        assert(seq![default as int, low as int, high as int] + offsets@.map_values(
            |x: i32| x as int,
        ) =~= seq![default as int, low as int, high as int] + expected);
    }
    Ok((Instruction::TABLESWITCH(default, low, high, offsets), pos))
}

/// The flattened pairs already read, in front of what the remaining pairs give.
pub open spec fn prepend_pairs(done: Seq<int>, rest: PairsOutcome) -> PairsOutcome {
    match rest {
        PairsOutcome::Read(s, e) => PairsOutcome::Read(done + s, e),
        other => other,
    }
}

/// Decodes a `lookupswitch`; `pc` stands just after its opcode.
fn parse_lookupswitch(code_bytes: &Vec<u8>, pc: usize) -> (r: Result<(Instruction, usize), VmError>)
    requires
        pc >= 1,
        !(decode_lookupswitch(code_bytes@, pc - 1) is Unsupported),
    ensures
        match decode_lookupswitch(code_bytes@, pc - 1) {
            Decoded::Instr(m, next) => r matches Ok((i, n)) && i@ == m && n == next,
            _ => r matches Err(e) && e == read_error(),
        },
{
    let ghost code = code_bytes@;
    let ghost p = pc as int;
    let ghost q = p + switch_padding(p);
    let ghost outcome = decode_lookupswitch(code, p - 1);
    let mut pos = pc;
    let padding = (4 - (pc % 4)) % 4;
    let instruction_pc = pc - 1;
    let mut i: usize = 0;
    while i < padding
        invariant
            p == pc as int,
            q == p + padding,
            padding == switch_padding(p),
            i <= padding,
            pos == p + i,
            code == code_bytes@,
            outcome == decode_lookupswitch(code, p - 1),
        decreases padding - i,
    {
        let _ = parse_u1(code_bytes, &mut pos)?;
        i = i + 1;
    }
    let ipc = (instruction_pc as u64) % 0x1_0000_0000;
    let base: i64 = if ipc >= 0x8000_0000 {
        ipc as i64 - 0x1_0000_0000
    } else {
        ipc as i64
    };
    assert(base == pc_as_i32(p - 1));
    let raw_default = parse_i4(code_bytes, &mut pos)?;
    assert(!(outcome is Unsupported));
    let default = (base + raw_default as i64) as i32;
    let npairs = parse_i4(code_bytes, &mut pos)?;
    let ghost total = lookup_pairs(code, q + 8, npairs as int, base as int);
    assert(outcome == match total {
        PairsOutcome::Read(pairs, end) => Decoded::Instr(
            instruction::model(0xab, seq![default as int] + pairs),
            end,
        ),
        PairsOutcome::EndOfCode => Decoded::EndOfCode,
        PairsOutcome::Unsupported => Decoded::Unsupported,
    });
    let mut offsets: Vec<i32> = Vec::new();
    let mut k: i32 = 0;
    let ghost mut done: Seq<int> = Seq::empty();
    assert(total == prepend_pairs(done, total)) by {
        assert(done + Seq::<int>::empty() =~= done);
        match total {
            PairsOutcome::Read(s, e) => {
                assert(done + s =~= s);
            },
            _ => {},
        }
    }
    while k < npairs
        invariant
            code == code_bytes@,
            outcome == decode_lookupswitch(code_bytes@, pc - 1),
            outcome == match total {
                PairsOutcome::Read(pairs, end) => Decoded::Instr(
                    instruction::model(0xab, seq![default as int] + pairs),
                    end,
                ),
                PairsOutcome::EndOfCode => Decoded::EndOfCode,
                PairsOutcome::Unsupported => Decoded::Unsupported,
            },
            0 <= k,
            k <= npairs || k == 0,
            pos == q + 8 + 8 * k,
            offsets@.map_values(|x: i32| x as int) == done,
            total == prepend_pairs(done, lookup_pairs(code, pos as int, npairs - k, base as int)),
            !(total is Unsupported),
            -0x8000_0000 <= base <= 0x7fff_ffff,
        decreases npairs - k,
    {
        let ghost rest = lookup_pairs(code, pos as int, npairs - k, base as int);
        proof {
            if pos + 8 > code.len() {
                assert(rest is EndOfCode);
                assert(total is EndOfCode);
                assert(outcome is EndOfCode);
            }
        }
        let m = parse_i4(code_bytes, &mut pos)?;
        offsets.push(m);
        let o = parse_i4(code_bytes, &mut pos)?;
        let ghost next_rest = lookup_pairs(code, pos as int, npairs - k - 1, base as int);
        proof {
            if !in_i32(base + o) {
                assert(rest is Unsupported);
                assert(false);
            }
            assert(rest == match next_rest {
                PairsOutcome::Read(s, e) => PairsOutcome::Read(seq![m as int, base + o] + s, e),
                other => other,
            });
        }
        let target = (base + o as i64) as i32;
        let ghost prev = offsets@;
        offsets.push(target);
        proof {
            let new_done = done + seq![m as int, target as int];
            assert(offsets@.map_values(|x: i32| x as int) =~= new_done);
            match next_rest {
                PairsOutcome::Read(s, e) => {
                    assert(done + (seq![m as int, target as int] + s) =~= new_done + s);
                },
                _ => {},
            }
            done = new_done;
        }
        k = k + 1;
    }
    proof {
        assert(lookup_pairs(code, pos as int, npairs - k, base as int) == PairsOutcome::Read(
            Seq::<int>::empty(),
            pos as int,
        ));
        assert(done + Seq::<int>::empty() =~= done);
        assert(seq![default as int] + offsets@.map_values(|x: i32| x as int) =~= seq![
            default as int,
        ] + done);
    }
    Ok((Instruction::LOOKUPSWITCH(default, offsets), pos))
}

/// Decodes the instruction whose opcode stands at `pc`, and gives the position after it.
/// Branch targets come out absolute; a `lookupswitch` gets absolute targets too, while a
/// `tableswitch` keeps its offsets as they stand.
pub fn parse_instruction(code_bytes: &Vec<u8>, pc: usize) -> (r: Result<(Instruction, usize), VmError>)
    requires
        !(spec_decode(code_bytes@, pc as int) is Unsupported),
    ensures
        match spec_decode(code_bytes@, pc as int) {
            Decoded::Instr(m, next) => r matches Ok((i, n)) && i@ == m && n == next,
            _ => r matches Err(e) && e == read_error(),
        },
{
    let start = pc;
    let mut pc = pc;
    let opcode = parse_u1(code_bytes, &mut pc)?;
    match operand_layout(opcode) {
        OperandLayout::Plain => Ok((plain_instruction(opcode), pc)),
        OperandLayout::U1 => {
            let v = parse_u1(code_bytes, &mut pc)?;
            Ok((u1_instruction(opcode, v), pc))
        },
        OperandLayout::U2 => {
            let v = parse_u2(code_bytes, &mut pc)?;
            Ok((u2_instruction(opcode, v), pc))
        },
        OperandLayout::Offset => {
            let target = parse_offset(code_bytes, &mut pc)?;
            Ok((branch_instruction(opcode, target), pc))
        },
        OperandLayout::U2U1U1 => {
            let index = parse_u2(code_bytes, &mut pc)?;
            let count = parse_u1(code_bytes, &mut pc)?;
            let zero = parse_u1(code_bytes, &mut pc)?;
            Ok((invoke_instruction(opcode, index, count, zero), pc))
        },
        OperandLayout::U1I1 => {
            let index = parse_u1(code_bytes, &mut pc)?;
            let amount = parse_i1(code_bytes, &mut pc)?;
            Ok((Instruction::IINC(index, amount), pc))
        },
        OperandLayout::TableSwitch => parse_tableswitch(code_bytes, pc),
        OperandLayout::LookupSwitch => parse_lookupswitch(code_bytes, pc),
        OperandLayout::Unsupported => {
            proof {
                assert(spec_decode(code_bytes@, start as int) is Unsupported);
            }
            Err(VmError::ParseError(ClassParseError::ReadError))
        },
    }
}

/// Decodes instructions from the start of `code_bytes` until one cannot be read, and
/// lists them in order.
pub fn printable_instructions(code_bytes: &Vec<u8>) -> (r: Vec<Instruction>)
    requires
        decode_stream(code_bytes@, 0) is Some,
    ensures
        r@.map_values(|i: Instruction| i@) == decode_stream(code_bytes@, 0)->Some_0.0.map_values(
            |e: (int, InstructionModel)| e.1,
        ),
{
    let ghost code = code_bytes@;
    let ghost all = decode_stream(code, 0)->Some_0.0.map_values(|e: (int, InstructionModel)| e.1);
    let mut instructions: Vec<Instruction> = Vec::new();
    let mut pc: usize = 0;
    loop
        invariant
            code == code_bytes@,
            pc <= code.len(),
            decode_stream(code, pc as int) is Some,
            all == instructions@.map_values(|i: Instruction| i@) + decode_stream(
                code,
                pc as int,
            )->Some_0.0.map_values(|e: (int, InstructionModel)| e.1),
        ensures
            all == instructions@.map_values(|i: Instruction| i@),
        decreases code.len() - pc,
    {
        proof {
            lemma_decode_advances(code, pc as int);
        }
        match parse_instruction(code_bytes, pc) {
            Ok((instruction, new_pc)) => {
                let ghost rest = decode_stream(code, new_pc as int)->Some_0.0;
                let ghost im = instruction@;
                let ghost prev = instructions@;
                proof {
                    let here = decode_stream(code, pc as int)->Some_0.0;
                    assert(here == seq![(pc as int, im)] + rest);
                    assert(here.map_values(|e: (int, InstructionModel)| e.1) =~= seq![im]
                        + rest.map_values(|e: (int, InstructionModel)| e.1));
                }
                instructions.push(instruction);
                proof {
                    assert(instructions@.map_values(|i: Instruction| i@) =~= prev.map_values(
                        |i: Instruction| i@,
                    ) + seq![im]);
                    assert(all =~= instructions@.map_values(|i: Instruction| i@)
                        + rest.map_values(|e: (int, InstructionModel)| e.1));
                }
                pc = new_pc;
            },
            Err(_) => {
                proof {
                    assert(decode_stream(code, pc as int)->Some_0.0 =~= Seq::<
                        (int, InstructionModel),
                    >::empty());
                    assert(instructions@.map_values(|i: Instruction| i@) + Seq::<
                        InstructionModel,
                    >::empty() =~= instructions@.map_values(|i: Instruction| i@));
                }
                break ;
            },
        }
    }
    instructions
}

/// Operands are read from the bytes after the opcode, most significant byte first: a
/// one-byte operand is that byte, a two-byte operand is `(b1 << 8) | b2`, and a branch
/// at `pc` whose target fits in 16 bits jumps to `pc` plus the two bytes read as a signed
/// 16-bit offset, the target kept as its 16-bit pattern. The next instruction starts
/// right after the operand bytes.
pub proof fn law_operands_are_big_endian(code: Seq<u8>, pc: int)
    requires
        0 <= pc < 32768,
        pc + 3 <= code.len(),
    ensures
        instruction::spec_layout(code[pc]) == OperandLayout::U1 ==> spec_decode(code, pc) == Decoded::Instr(
            instruction::model(code[pc], seq![code[pc + 1] as int]),
            pc + 2,
        ),
        instruction::spec_layout(code[pc]) == OperandLayout::U2 ==> spec_decode(code, pc) == Decoded::Instr(
            instruction::model(code[pc], seq![(((code[pc + 1] as u16) << 8u16) | (code[pc + 2] as u16)) as int]),
            pc + 3,
        ),
        ({
            let offset = ((((code[pc + 1] as u16) << 8u16) | (code[pc + 2] as u16)) as i16) as int;
            instruction::spec_layout(code[pc]) == OperandLayout::Offset && -32768 <= pc + offset <= 32767
                ==> spec_decode(code, pc) == Decoded::Instr(
                instruction::model(code[pc], seq![(pc + offset) % 65536]),
                pc + 3,
            )
        }),
{
    let b1 = code[pc + 1];
    let b2 = code[pc + 2];
    let w = ((b1 as u16) << 8u16) | (b2 as u16);
    assert(w == b1 as int * 256 + b2 as int) by (bit_vector)
        requires
            w == ((b1 as u16) << 8u16) | (b2 as u16),
    ;
    assert(u2_at(code, pc + 1) == w as int);
    let o16 = w as i16;
    assert(w >= 32768 ==> o16 == w - 65536) by (bit_vector)
        requires
            o16 == w as i16,
    ;
    assert(w < 32768 ==> o16 == w) by (bit_vector)
        requires
            o16 == w as i16,
    ;
    let o = o16 as int;
    assert(as_i16(pc % 65536) == pc);
    let t = pc + o;
    if -32768 <= t <= 32767 {
        assert(as_u16(t) == t % 65536);
    }
}

} // verus!
