use vstd::prelude::*;

use std::collections::HashMap;

use crate::bytecode::instruction::{branch_instruction, model};
use crate::bytecode::{parse_instruction, Instruction, InstructionModel};
use crate::vm::bytecode::{is_branch, key, InstructionBlock};

verus! {

broadcast use vstd::std_specs::hash::group_hash_axioms;

/// The index of each instruction, filed under the key of its position; where two
/// positions share a key, the later instruction wins.
pub open spec fn index_by_key(items: Seq<(int, InstructionModel)>) -> Map<u16, int>
    decreases items.len(),
{
    if items.len() == 0 {
        Map::empty()
    } else {
        index_by_key(items.drop_last()).insert(key(items.last().0), items.len() - 1)
    }
}

/// Every branch targets a position at which an instruction starts.
pub open spec fn branch_targets_known(items: Seq<(int, InstructionModel)>) -> bool {
    forall|i: int|
        0 <= i < items.len() && is_branch(#[trigger] items[i].1) ==> index_by_key(
            items,
        ).contains_key(items[i].1.operands[0] as u16)
}

/// The `i`-th instruction, where a branch's target is replaced by the index of the
/// instruction it jumps to (cut to 16 bits).
pub open spec fn raw_instruction(items: Seq<(int, InstructionModel)>, i: int) -> InstructionModel {
    let m = items[i].1;
    if is_branch(m) {
        model(m.opcode, seq![index_by_key(items)[m.operands[0] as u16] % 65536])
    } else {
        m
    }
}

proof fn lemma_index_by_key_bounds(items: Seq<(int, InstructionModel)>, k: u16)
    ensures
        index_by_key(items).contains_key(k) ==> 0 <= index_by_key(items)[k] < items.len(),
    decreases items.len(),
{
    if items.len() > 0 {
        lemma_index_by_key_bounds(items.drop_last(), k);
    }
}

/// Decodes the code into one block per instruction, in order, with each branch target
/// turned from a byte position into the index of the instruction found there.
pub fn get_blocks(bytes: &Vec<u8>) -> (r: Vec<InstructionBlock>)
    requires
        crate::bytecode::decodes_fully(bytes@),
        branch_targets_known(crate::bytecode::decoded_items(bytes@)),
    ensures
        r@.len() == crate::bytecode::decoded_items(bytes@).len(),
        forall|i: int|
            0 <= i < r@.len() ==> #[trigger] r@[i]@ == crate::vm::bytecode::BlockModel::Single(
                raw_instruction(crate::bytecode::decoded_items(bytes@), i),
            ),
{
    let ghost code = bytes@;
    let ghost items = crate::bytecode::decoded_items(code);
    let mut instructions: Vec<Instruction> = Vec::new();
    let mut intermediate_blocks: HashMap<u16, usize> = HashMap::new();
    let mut pc: usize = 0;
    while pc < bytes.len()
        invariant
            code == bytes@,
            crate::bytecode::decodes_fully(code),
            items == crate::bytecode::decoded_items(code),
            pc <= code.len(),
            instructions@.len() <= items.len(),
            crate::bytecode::decode_stream(code, pc as int) == Some(
                (items.skip(instructions@.len() as int), code.len() as int),
            ),
            forall|j: int|
                0 <= j < instructions@.len() ==> #[trigger] instructions@[j]@ == items[j].1,
            intermediate_blocks@ == index_by_key(items.take(instructions@.len() as int)).map_values(
                |v: int| v as usize,
            ),
        decreases code.len() - pc,
    {
        let ghost n = instructions@.len() as int;
        proof {
            crate::bytecode::lemma_decode_advances(code, pc as int);
        }
        match parse_instruction(bytes, pc) {
            Ok((instruction, new_pc)) => {
                let ghost im = instruction@;
                proof {
                    let rest = crate::bytecode::decode_stream(code, new_pc as int)->Some_0.0;
                    assert(items.skip(n) == seq![(pc as int, im)] + rest);
                    assert(items.skip(n)[0] == items[n]);
                    assert(items.skip(n + 1) =~= items.skip(n).drop_first());
                    assert(items.skip(n).drop_first() =~= rest);
                    assert(items.take(n + 1).drop_last() =~= items.take(n));
                }
                let index = instructions.len();
                intermediate_blocks.insert((pc % 65536) as u16, index);
                instructions.push(instruction);
                proof {
                    assert(intermediate_blocks@ =~= index_by_key(items.take(n + 1)).map_values(
                        |v: int| v as usize,
                    ));
                }
                pc = new_pc;
            },
            Err(_) => {
                proof {
                    assert(false);
                }
            },
        }
    }
    proof {
        assert(items.skip(instructions@.len() as int).len() == 0);
        assert(items.take(items.len() as int) =~= items);
    }
    let mut blocks: Vec<InstructionBlock> = Vec::new();
    let mut i: usize = 0;
    while i < instructions.len()
        invariant
            code == bytes@,
            items == crate::bytecode::decoded_items(code),
            branch_targets_known(items),
            instructions@.len() == items.len(),
            forall|j: int| 0 <= j < instructions@.len() ==> #[trigger] instructions@[j]@ == items[j].1,
            intermediate_blocks@ == index_by_key(items).map_values(|v: int| v as usize),
            i <= instructions@.len(),
            blocks@.len() == i,
            forall|j: int|
                0 <= j < i ==> #[trigger] blocks@[j]@ == crate::vm::bytecode::BlockModel::Single(
                    raw_instruction(items, j),
                ),
        decreases instructions@.len() - i,
    {
        let instruction = &instructions[i];
        assert(instruction@ == items[i as int].1);
        let opcode = instruction.opcode();
        let block = if crate::bytecode::instruction::operand_layout(opcode)
            == crate::bytecode::OperandLayout::Offset {
            let target = instruction.branch_target();
            proof {
                assert(index_by_key(items).contains_key(target));
            }
            let index = *intermediate_blocks.get(&target).unwrap();
            proof {
                lemma_index_by_key_bounds(items, target);
                assert(index as int == index_by_key(items)[target]);
            }
            InstructionBlock::Single(branch_instruction(opcode, (index % 65536) as u16))
        } else {
            InstructionBlock::Single(instruction.duplicate())
        };
        let ghost prev = blocks@;
        proof {
            assert(block@ == crate::vm::bytecode::BlockModel::Single(raw_instruction(items, i as int)));
        }
        blocks.push(block);
        proof {
            assert forall|j: int| 0 <= j < i + 1 implies #[trigger] blocks@[j]@
                == crate::vm::bytecode::BlockModel::Single(raw_instruction(items, j)) by {
                if j < i {
                    assert(blocks@[j] == prev[j]);
                }
            }
        }
        i = i + 1;
    }
    blocks
}

} // verus!
