use vstd::prelude::*;

use std::collections::BTreeMap;

use crate::bytecode::{Instruction, InstructionModel, OperandLayout};

pub mod il;
pub mod raw;

verus! {

/// A unit of execution: one instruction, or a short run of instructions fused into one step.
/// Floating-point constants are held as their IEEE 754 bit patterns.
#[derive(Debug, PartialEq, Clone)]
pub enum InstructionBlock {
    Single(Instruction),
    AStoreWithoutPop(usize),
    IStoreWithoutPop(usize),
    LStoreWithoutPop(usize),
    FStoreWithoutPop(usize),
    DStoreWithoutPop(usize),
    IConstReturn(i32),
    LConstReturn(i64),
    FConstReturn(u32),
    DConstReturn(u64),
    /// `ACONST_NULL` followed by `ARETURN`: returns null.
    NullReturn,
    JumpLabel,
    Jump(usize, Instruction),
}

/// The mathematical content of an [`InstructionBlock`].
pub enum BlockModel {
    Single(InstructionModel),
    AStoreWithoutPop(int),
    IStoreWithoutPop(int),
    LStoreWithoutPop(int),
    FStoreWithoutPop(int),
    DStoreWithoutPop(int),
    IConstReturn(int),
    LConstReturn(int),
    FConstReturn(int),
    DConstReturn(int),
    NullReturn,
    JumpLabel,
    Jump(int, InstructionModel),
}

impl View for InstructionBlock {
    type V = BlockModel;

    open spec fn view(&self) -> BlockModel {
        match self {
            InstructionBlock::Single(i) => BlockModel::Single(i@),
            InstructionBlock::AStoreWithoutPop(v) => BlockModel::AStoreWithoutPop(*v as int),
            InstructionBlock::IStoreWithoutPop(v) => BlockModel::IStoreWithoutPop(*v as int),
            InstructionBlock::LStoreWithoutPop(v) => BlockModel::LStoreWithoutPop(*v as int),
            InstructionBlock::FStoreWithoutPop(v) => BlockModel::FStoreWithoutPop(*v as int),
            InstructionBlock::DStoreWithoutPop(v) => BlockModel::DStoreWithoutPop(*v as int),
            InstructionBlock::IConstReturn(v) => BlockModel::IConstReturn(*v as int),
            InstructionBlock::LConstReturn(v) => BlockModel::LConstReturn(*v as int),
            InstructionBlock::FConstReturn(v) => BlockModel::FConstReturn(*v as int),
            InstructionBlock::DConstReturn(v) => BlockModel::DConstReturn(*v as int),
            InstructionBlock::NullReturn => BlockModel::NullReturn,
            InstructionBlock::JumpLabel => BlockModel::JumpLabel,
            InstructionBlock::Jump(t, i) => BlockModel::Jump(*t as int, i@),
        }
    }
}

/// The 16-bit key under which the instruction at position `pc` is filed.
pub open spec fn key(pc: int) -> u16 {
    (pc % 65536) as u16
}

/// True for the conditional and unconditional branches whose operand is an absolute target.
pub open spec fn is_branch(m: InstructionModel) -> bool {
    crate::bytecode::instruction::spec_layout(m.opcode) == OperandLayout::Offset
}

/// The blocks of a method's code, keyed by position: the fused blocks of [`il::get_blocks`].
pub fn get_blocks(bytes: &Vec<u8>) -> (r: BTreeMap<u16, InstructionBlock>)
    requires
        crate::bytecode::decodes_fully(bytes@),
    ensures
        r@.map_values(|b: InstructionBlock| b@) == il::il_blocks(
            crate::bytecode::decoded_items(bytes@),
        ),
{
    il::get_blocks(bytes)
}

} // verus!
