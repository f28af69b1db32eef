use vstd::prelude::*;

use std::collections::{BTreeMap, HashMap, HashSet};

use crate::bytecode::{parse_instruction, Instruction, InstructionModel};
use crate::vm::bytecode::{is_branch, key, BlockModel, InstructionBlock};

verus! {

broadcast use vstd::std_specs::hash::group_hash_axioms;

/// Each instruction filed under the key of its position; where two positions share a key,
/// the later instruction wins.
pub open spec fn instr_by_key(items: Seq<(int, InstructionModel)>) -> Map<u16, InstructionModel>
    decreases items.len(),
{
    if items.len() == 0 {
        Map::empty()
    } else {
        instr_by_key(items.drop_last()).insert(key(items.last().0), items.last().1)
    }
}

/// The keys of the instructions' positions, in order.
pub open spec fn item_keys(items: Seq<(int, InstructionModel)>) -> Seq<u16> {
    items.map_values(|e: (int, InstructionModel)| key(e.0))
}

/// The targets of the branches among `items`.
pub open spec fn branch_target_keys(items: Seq<(int, InstructionModel)>) -> Set<u16> {
    Set::new(
        |t: u16|
            exists|i: int|
                0 <= i < items.len() && is_branch(#[trigger] items[i].1) && items[i].1.operands[0]
                    == t as int,
    )
}

/// The bit pattern of the `float` constant 1.0.
pub open spec fn float_one_bits() -> int {
    0x3f80_0000
}

/// The bit pattern of the `float` constant 2.0.
pub open spec fn float_two_bits() -> int {
    0x4000_0000
}

/// The bit pattern of the `double` constant 1.0.
pub open spec fn double_one_bits() -> int {
    0x3ff0_0000_0000_0000
}

/// What the instruction `cur` becomes, and how many instructions it takes up, given the
/// instruction after it (if any) and whether that next instruction is a branch target.
/// A store followed by a load of the same local becomes a store that keeps the value on
/// the stack; a constant, null included, followed by the matching return becomes a
/// constant return. The pair is never fused when the second instruction is a branch
/// target.
pub open spec fn fuse(cur: InstructionModel, next: Option<InstructionModel>, next_is_target: bool) -> (
    int,
    BlockModel,
) {
    let single = (1int, BlockModel::Single(cur));
    if next is None || next_is_target {
        single
    } else {
        let n = next->Some_0;
        let op = cur.opcode;
        if op == 0x3a && n.opcode == 0x19 && n.operands[0] == cur.operands[0] {
            (2, BlockModel::AStoreWithoutPop(cur.operands[0]))
        } else if 0x4b <= op <= 0x4e && n.opcode == op - 0x21 {
            (2, BlockModel::AStoreWithoutPop(op - 0x4b))
        } else if 0x02 <= op <= 0x08 && n.opcode == 0xac {
            (2, BlockModel::IConstReturn(op - 3))
        } else if 0x09 <= op <= 0x0a && n.opcode == 0xad {
            (2, BlockModel::LConstReturn(op - 9))
        } else if op == 0x0b && n.opcode == 0xae {
            (2, BlockModel::FConstReturn(0))
        } else if op == 0x0c && n.opcode == 0xae {
            (2, BlockModel::FConstReturn(float_one_bits()))
        } else if op == 0x0e && n.opcode == 0xaf {
            (2, BlockModel::DConstReturn(0))
        } else if op == 0x0f && n.opcode == 0xaf {
            (2, BlockModel::DConstReturn(double_one_bits()))
        } else if op == 0x0d && n.opcode == 0xae {
            (2, BlockModel::FConstReturn(float_two_bits()))
        } else if op == 0x01 && n.opcode == 0xb0 {
            (2, BlockModel::NullReturn)
        } else {
            single
        }
    }
}

/// Walks the keys from position `i`, fusing as [`fuse`] says and filing each block under
/// the key of its first instruction, on top of `acc`.
pub open spec fn il_from(
    keys: Seq<u16>,
    m: Map<u16, InstructionModel>,
    targets: Set<u16>,
    i: int,
    acc: Map<u16, BlockModel>,
) -> Map<u16, BlockModel>
    decreases keys.len() - i,
{
    if i < 0 || i >= keys.len() {
        acc
    } else {
        let next = if i + 1 < keys.len() {
            Some(m[keys[i + 1]])
        } else {
            None
        };
        let next_is_target = i + 1 < keys.len() && targets.contains(keys[i + 1]);
        let (offset, block) = fuse(m[keys[i]], next, next_is_target);
        if offset >= 1 {
            il_from(keys, m, targets, i + offset, acc.insert(keys[i], block))
        } else {
            acc
        }
    }
}

/// The fused blocks of a decoded method, keyed by the position of their first instruction.
pub open spec fn il_blocks(items: Seq<(int, InstructionModel)>) -> Map<u16, BlockModel> {
    il_from(item_keys(items), instr_by_key(items), branch_target_keys(items), 0, Map::empty())
}

proof fn lemma_fuse_offset(cur: InstructionModel, next: Option<InstructionModel>, t: bool)
    ensures
        fuse(cur, next, t).0 == 1 || (fuse(cur, next, t).0 == 2 && next is Some),
{
}

proof fn lemma_keys_in_map(items: Seq<(int, InstructionModel)>, i: int)
    requires
        0 <= i < items.len(),
    ensures
        instr_by_key(items).contains_key(key(items[i].0)),
    decreases items.len(),
{
    if i < items.len() - 1 {
        lemma_keys_in_map(items.drop_last(), i);
    }
}

proof fn lemma_branch_targets_push(before: Seq<(int, InstructionModel)>, e: (int, InstructionModel), t: u16)
    requires
        is_branch(e.1) ==> t as int == e.1.operands[0],
    ensures
        branch_target_keys(before.push(e)) == if is_branch(e.1) {
            branch_target_keys(before).insert(t)
        } else {
            branch_target_keys(before)
        },
{
    let after = before.push(e);
    let expected = if is_branch(e.1) {
        branch_target_keys(before).insert(t)
    } else {
        branch_target_keys(before)
    };
    assert forall|x: u16| #[trigger] branch_target_keys(after).contains(x) == expected.contains(x) by {
        if branch_target_keys(after).contains(x) {
            let i = choose|i: int|
                0 <= i < after.len() && is_branch(#[trigger] after[i].1) && after[i].1.operands[0]
                    == x as int;
            if i < before.len() {
                assert(before[i] == after[i]);
                assert(branch_target_keys(before).contains(x));
            }
        }
        if branch_target_keys(before).contains(x) {
            let i = choose|i: int|
                0 <= i < before.len() && is_branch(#[trigger] before[i].1) && before[i].1.operands[0]
                    == x as int;
            assert(after[i] == before[i]);
            assert(branch_target_keys(after).contains(x));
        }
        if is_branch(e.1) && x == t {
            assert(after[before.len() as int] == e);
            assert(branch_target_keys(after).contains(x));
        }
    }
    assert(branch_target_keys(after) =~= expected);
}

/// Fuses `cur` with the instruction after it, which is not a branch target.
fn fuse_pair(cur: &Instruction, next: &Instruction) -> (r: (usize, InstructionBlock))
    ensures
        r.0 as int == fuse(cur@, Some(next@), false).0,
        r.1@ == fuse(cur@, Some(next@), false).1,
{
    let op = cur.opcode();
    let nop = next.opcode();
    if op == 0x3a && nop == 0x19 {
        let (a, b) = match (cur, next) {
            (Instruction::ASTORE(a), Instruction::ALOAD(b)) => (*a, *b),
            _ => {
                proof {
                    assert(false);
                }
                (0, 0)
            },
        };
        if a == b {
            (2, InstructionBlock::AStoreWithoutPop(a as usize))
        } else {
            (1, InstructionBlock::Single(cur.duplicate()))
        }
    } else if 0x4b <= op && op <= 0x4e && nop == op - 0x21 {
        (2, InstructionBlock::AStoreWithoutPop((op - 0x4b) as usize))
    } else if 0x02 <= op && op <= 0x08 && nop == 0xac {
        (2, InstructionBlock::IConstReturn(op as i32 - 3))
    } else if 0x09 <= op && op <= 0x0a && nop == 0xad {
        (2, InstructionBlock::LConstReturn(op as i64 - 9))
    } else if op == 0x0b && nop == 0xae {
        (2, InstructionBlock::FConstReturn(0))
    } else if op == 0x0c && nop == 0xae {
        (2, InstructionBlock::FConstReturn(0x3f80_0000))
    } else if op == 0x0e && nop == 0xaf {
        (2, InstructionBlock::DConstReturn(0))
    } else if op == 0x0f && nop == 0xaf {
        (2, InstructionBlock::DConstReturn(0x3ff0_0000_0000_0000))
    } else if op == 0x0d && nop == 0xae {
        (2, InstructionBlock::FConstReturn(0x4000_0000))
    } else if op == 0x01 && nop == 0xb0 {
        (2, InstructionBlock::NullReturn)
    } else {
        (1, InstructionBlock::Single(cur.duplicate()))
    }
}

#[verifier::rlimit(30)]
/// Decodes the code and fuses runs of instructions into blocks, keyed by the position of
/// each block's first instruction (see [`il_blocks`]).
pub fn get_blocks(bytes: &Vec<u8>) -> (r: BTreeMap<u16, InstructionBlock>)
    requires
        crate::bytecode::decodes_fully(bytes@),
    ensures
        r@.map_values(|b: InstructionBlock| b@) == il_blocks(crate::bytecode::decoded_items(bytes@)),
{
    let ghost code = bytes@;
    let ghost items = crate::bytecode::decoded_items(code);
    let mut indices: Vec<u16> = Vec::new();
    let mut code_to_instruction_map: HashMap<u16, Instruction> = HashMap::new();
    let mut targets: HashSet<u16> = HashSet::new();
    let mut pc: usize = 0;
    while pc < bytes.len()
        invariant
            code == bytes@,
            crate::bytecode::decodes_fully(code),
            items == crate::bytecode::decoded_items(code),
            pc <= code.len(),
            indices@.len() <= items.len(),
            crate::bytecode::decode_stream(code, pc as int) == Some(
                (items.skip(indices@.len() as int), code.len() as int),
            ),
            indices@ == item_keys(items.take(indices@.len() as int)),
            code_to_instruction_map@.map_values(|i: Instruction| i@) == instr_by_key(
                items.take(indices@.len() as int),
            ),
            targets@ == branch_target_keys(items.take(indices@.len() as int)),
        decreases code.len() - pc,
    {
        let ghost n = indices@.len() as int;
        proof {
            crate::bytecode::lemma_decode_advances(code, pc as int);
        }
        match parse_instruction(bytes, pc) {
            Ok((instruction, new_pc)) => {
                let ghost im = instruction@;
                let ghost before = items.take(n);
                let ghost after = items.take(n + 1);
                proof {
                    let rest = crate::bytecode::decode_stream(code, new_pc as int)->Some_0.0;
                    assert(items.skip(n) == seq![(pc as int, im)] + rest);
                    assert(items.skip(n)[0] == items[n]);
                    assert(items.skip(n + 1) =~= items.skip(n).drop_first());
                    assert(items.skip(n).drop_first() =~= rest);
                    assert(after.drop_last() =~= before);
                    assert(after.last() == (pc as int, im));
                }
                let k = (pc % 65536) as u16;
                let opcode = instruction.opcode();
                let mut t: u16 = 0;
                if crate::bytecode::instruction::operand_layout(opcode)
                    == crate::bytecode::OperandLayout::Offset {
                    t = instruction.branch_target();
                    targets.insert(t);
                }
                proof {
                    assert(after =~= before.push((pc as int, im)));
                    lemma_branch_targets_push(before, (pc as int, im), t);
                    assert(targets@ =~= branch_target_keys(after));
                }
                code_to_instruction_map.insert(k, instruction);
                indices.push(k);
                proof {
                    assert(indices@ =~= item_keys(after));
                    assert(code_to_instruction_map@.map_values(|i: Instruction| i@) =~= instr_by_key(
                        after,
                    ));
                }
                pc = new_pc;
            },
            Err(_) => {
                proof {
                    assert(false);
                }
            },
        }
    }
    proof {
        assert(items.skip(indices@.len() as int).len() == 0);
        assert(items.take(items.len() as int) =~= items);
    }
    let ghost keys = item_keys(items);
    let ghost m = instr_by_key(items);
    let ghost tset = branch_target_keys(items);
    let ghost result = il_blocks(items);
    let mut blocks: BTreeMap<u16, InstructionBlock> = BTreeMap::new();
    assert(blocks@.map_values(|b: InstructionBlock| b@) =~= Map::<u16, BlockModel>::empty());
    let mut index_index: usize = 0;
    let num_indices = indices.len();
    while index_index < num_indices
        invariant
            num_indices == indices@.len(),
            indices@ == keys,
            keys == item_keys(items),
            keys.len() == items.len(),
            code_to_instruction_map@.map_values(|i: Instruction| i@) == m,
            m == instr_by_key(items),
            targets@ == tset,
            index_index <= num_indices,
            result == il_from(
                keys,
                m,
                tset,
                index_index as int,
                blocks@.map_values(|b: InstructionBlock| b@),
            ),
        decreases num_indices - index_index,
    {
        let index = indices[index_index];
        proof {
            lemma_keys_in_map(items, index_index as int);
        }
        let cur = code_to_instruction_map.get(&index).unwrap();
        let (offset, block) = if index_index + 1 < num_indices {
            let next_key = indices[index_index + 1];
            proof {
                lemma_keys_in_map(items, index_index + 1);
            }
            let next = code_to_instruction_map.get(&next_key).unwrap();
            if targets.contains(&next_key) {
                (1, InstructionBlock::Single(cur.duplicate()))
            } else {
                fuse_pair(cur, next)
            }
        } else {
            (1, InstructionBlock::Single(cur.duplicate()))
        };
        proof {
            let next = if index_index + 1 < keys.len() {
                Some(m[keys[index_index + 1]])
            } else {
                None
            };
            lemma_fuse_offset(
                m[keys[index_index as int]],
                next,
                index_index + 1 < keys.len() && tset.contains(keys[index_index + 1]),
            );
        }
        let ghost old_blocks = blocks@;
        blocks.insert(index, block);
        proof {
            assert(blocks@.map_values(|b: InstructionBlock| b@) =~= old_blocks.map_values(
                |b: InstructionBlock| b@,
            ).insert(index, block@));
        }
        index_index = index_index + offset;
    }
    blocks
}

/// Two to the power `e`.
pub open spec fn two_to(e: nat) -> nat
    decreases e,
{
    if e == 0 {
        1
    } else {
        2 * two_to((e - 1) as nat)
    }
}

/// The position of the highest set bit of `n` (0 for 0 and 1).
pub open spec fn floor_log2(n: nat) -> nat
    decreases n,
{
    if n <= 1 {
        0
    } else {
        1 + floor_log2(n / 2)
    }
}

/// The IEEE 754 single-precision bits of the whole number `n` (below 2^24): sign 0, the
/// exponent of its highest bit biased by 127, and its lower bits as the fraction.
pub open spec fn single_bits_of(n: nat) -> int {
    if n == 0 {
        0
    } else {
        let e = floor_log2(n);
        (127 + e) * two_to(23) + (n - two_to(e)) * two_to((23 - e) as nat)
    }
}

/// The IEEE 754 double-precision bits of the whole number `n` (below 2^53): sign 0, the
/// exponent of its highest bit biased by 1023, and its lower bits as the fraction.
pub open spec fn double_bits_of(n: nat) -> int {
    if n == 0 {
        0
    } else {
        let e = floor_log2(n);
        (1023 + e) * two_to(52) + (n - two_to(e)) * two_to((52 - e) as nat)
    }
}

proof fn lemma_two_to_values()
    ensures
        two_to(0) == 1,
        two_to(1) == 2,
        two_to(22) == 0x40_0000,
        two_to(23) == 0x80_0000,
        two_to(51) == 0x8_0000_0000_0000,
        two_to(52) == 0x10_0000_0000_0000,
{
    assert(two_to(0) == 1);
    assert(two_to(1) == 2);
    assert(two_to(2) == 4);
    assert(two_to(3) == 8);
    assert(two_to(4) == 16);
    assert(two_to(5) == 32);
    assert(two_to(6) == 64);
    assert(two_to(7) == 128);
    assert(two_to(8) == 256);
    assert(two_to(9) == 512);
    assert(two_to(10) == 1024);
    assert(two_to(11) == 2048);
    assert(two_to(12) == 4096);
    assert(two_to(13) == 8192);
    assert(two_to(14) == 16384);
    assert(two_to(15) == 32768);
    assert(two_to(16) == 65536);
    assert(two_to(17) == 131072);
    assert(two_to(18) == 262144);
    assert(two_to(19) == 524288);
    assert(two_to(20) == 1048576);
    assert(two_to(21) == 2097152);
    assert(two_to(22) == 4194304);
    assert(two_to(23) == 8388608);
    assert(two_to(24) == 16777216);
    assert(two_to(25) == 33554432);
    assert(two_to(26) == 67108864);
    assert(two_to(27) == 134217728);
    assert(two_to(28) == 268435456);
    assert(two_to(29) == 536870912);
    assert(two_to(30) == 1073741824);
    assert(two_to(31) == 2147483648);
    assert(two_to(32) == 4294967296);
    assert(two_to(33) == 8589934592);
    assert(two_to(34) == 17179869184);
    assert(two_to(35) == 34359738368);
    assert(two_to(36) == 68719476736);
    assert(two_to(37) == 137438953472);
    assert(two_to(38) == 274877906944);
    assert(two_to(39) == 549755813888);
    assert(two_to(40) == 1099511627776);
    assert(two_to(41) == 2199023255552);
    assert(two_to(42) == 4398046511104);
    assert(two_to(43) == 8796093022208);
    assert(two_to(44) == 17592186044416);
    assert(two_to(45) == 35184372088832);
    assert(two_to(46) == 70368744177664);
    assert(two_to(47) == 140737488355328);
    assert(two_to(48) == 281474976710656);
    assert(two_to(49) == 562949953421312);
    assert(two_to(50) == 1125899906842624);
    assert(two_to(51) == 2251799813685248);
    assert(two_to(52) == 4503599627370496);
}

/// A constant instruction followed by the return of its kind becomes a block that returns
/// the constant the instruction pushes: `ICONST_n` (from -1 to 5) and `LCONST_n` return
/// `n`, `FCONST_n` (0 to 2) and `DCONST_n` (0 and 1) the IEEE 754 bits of `n`, and
/// `ACONST_NULL` the null reference; the pair takes two instructions.
pub proof fn law_constant_returns(cur: InstructionModel, next: InstructionModel)
    ensures
        0x02 <= cur.opcode <= 0x08 && next.opcode == 0xac ==> fuse(cur, Some(next), false) == (
            2int,
            BlockModel::IConstReturn(cur.opcode - 0x03),
        ),
        0x09 <= cur.opcode <= 0x0a && next.opcode == 0xad ==> fuse(cur, Some(next), false) == (
            2int,
            BlockModel::LConstReturn(cur.opcode - 0x09),
        ),
        0x0b <= cur.opcode <= 0x0d && next.opcode == 0xae ==> fuse(cur, Some(next), false) == (
            2int,
            BlockModel::FConstReturn(single_bits_of((cur.opcode - 0x0b) as nat)),
        ),
        0x0e <= cur.opcode <= 0x0f && next.opcode == 0xaf ==> fuse(cur, Some(next), false) == (
            2int,
            BlockModel::DConstReturn(double_bits_of((cur.opcode - 0x0e) as nat)),
        ),
        cur.opcode == 0x01 && next.opcode == 0xb0 ==> fuse(cur, Some(next), false) == (2int, BlockModel::NullReturn),
{
    lemma_two_to_values();
    assert(floor_log2(1) == 0);
    assert(floor_log2(2) == 1);
    assert(single_bits_of(1) == 0x3f80_0000);
    assert(single_bits_of(2) == 0x4000_0000);
    assert(double_bits_of(1) == 0x3ff0_0000_0000_0000);
}

} // verus!
