use vstd::prelude::*;

use crate::bytecode::Instruction;
use crate::constants::{entry_at, ConstantPoolEntry};
use crate::field_info::PrimitiveType;
use crate::vm::bytecode::InstructionBlock;
use crate::vm::callstack::{
    with_local_stored, with_operand_popped, with_operand_pushed, CallStack, FrameView,
};
use crate::vm::result::{VMPartialResult, VMResultType};
use crate::vm::value::{RefId, Value};
use crate::vm::heap::Heap;
use crate::vm::java_error::JavaError;
use crate::vm::value::ReferenceValue;
use crate::vm::VmError;

verus! {

/// What running one block did, as far as the frame tells.
pub enum StepModel {
    /// Go on with the block at the frame's position.
    Continue,
    /// The method returned, with a value or without.
    Return(Option<Value>),
    /// The operands or locals were not of the kind the block needs.
    Invalid,
    /// The block is of a kind this interpreter does not execute.
    NotExecutable,
    /// The block met the null reference where it needs an object.
    NullPointer,
    /// The block needs the heap, class loading or a method call; the frame is as the
    /// block found it, at the position of the next block.
    NeedsMachine,
}

/// How running one block ended.
pub enum BlockOutcome<'a> {
    /// Go on with the block at the frame's position.
    Continue,
    /// The method returned, or the block failed.
    Finished(VMPartialResult<'a, Option<Value>>),
    /// The block needs the heap, class loading or a method call, which the caller
    /// performs.
    NeedsMachine,
}

/// True when the outcome `r` is the one the model `m` describes.
pub open spec fn outcome_is<'a>(r: BlockOutcome<'a>, m: StepModel) -> bool {
    match m {
        StepModel::Continue => r is Continue,
        StepModel::Return(v) => (r matches BlockOutcome::Finished(Ok(VMResultType::Success(w)))
            && w == v),
        StepModel::Invalid => r matches BlockOutcome::Finished(Err(VmError::ValidationError(_))),
        StepModel::NotExecutable => r matches BlockOutcome::Finished(
            Err(VmError::Unspecified(_)),
        ),
        StepModel::NullPointer => r matches BlockOutcome::Finished(
            Err(VmError::JavaException(JavaError::NullPointerException(_))),
        ),
        StepModel::NeedsMachine => r is NeedsMachine,
    }
}

/// The innermost operand stack.
pub open spec fn ops<'a>(s: Seq<FrameView<'a>>) -> Seq<Value> {
    s.last().operands
}

/// The innermost local variables.
pub open spec fn locals<'a>(s: Seq<FrameView<'a>>) -> Seq<Value> {
    s.last().locals
}

/// True when the innermost operand stack can take `n` more operands.
pub open spec fn room<'a>(s: Seq<FrameView<'a>>, n: int) -> bool {
    ops(s).len() + n <= s.last().max_stack
}

/// True when no operand stack of `s` holds more operands than it has room for.
pub open spec fn operands_fit<'a>(s: Seq<FrameView<'a>>) -> bool {
    forall|i: int| 0 <= i < s.len() ==> (#[trigger] s[i]).operands.len() <= s[i].max_stack
}

/// True when `b` has the invocations of `a`, all but the innermost one unchanged.
pub open spec fn same_outer<'a>(a: Seq<FrameView<'a>>, b: Seq<FrameView<'a>>) -> bool {
    a.len() == b.len() && a.drop_last() == b.drop_last()
}

/// `s` with the innermost invocation at the position `pc`.
pub open spec fn with_pc<'a>(s: Seq<FrameView<'a>>, pc: u16) -> Seq<FrameView<'a>> {
    s.update(s.len() - 1, FrameView { pc, ..s.last() })
}

/// `s` with the innermost invocation moved to `next_pc`, if there is one.
pub open spec fn advanced<'a>(s: Seq<FrameView<'a>>, next_pc: Option<u16>) -> Seq<FrameView<'a>> {
    match next_pc {
        Some(pc) => with_pc(s, pc),
        None => s,
    }
}

/// `s` after popping the innermost operand stack `n` times; popping an empty stack
/// leaves it empty.
pub open spec fn popped_n<'a>(s: Seq<FrameView<'a>>, n: int) -> Seq<FrameView<'a>> {
    let k = if ops(s).len() < n {
        ops(s).len() as int
    } else {
        n
    };
    s.update(
        s.len() - 1,
        FrameView { operands: ops(s).take(ops(s).len() - k), ..s.last() },
    )
}

/// The operand `k` places below the top of the innermost operand stack.
pub open spec fn operand<'a>(s: Seq<FrameView<'a>>, k: int) -> Value {
    ops(s)[ops(s).len() - 1 - k]
}

/// The integer arithmetic and logic operations.
#[derive(PartialEq, Eq, Structural, Copy, Clone)]
pub enum IntOp {
    Add,
    Mul,
    Shl,
    Ushr,
    Or,
    Xor,
}

/// The result of `op` on `v1` and `v2`, as the interpreter computes it.
pub open spec fn int_op(op: IntOp, v1: i32, v2: i32) -> i32 {
    let shift = (v2 & 0x1f) as u32;
    match op {
        IntOp::Add => v1.wrapping_add(v2),
        IntOp::Mul => v1.wrapping_mul(v2),
        IntOp::Shl => v1.wrapping_shl(shift),
        IntOp::Ushr => if v1 > 0 {
            v1.wrapping_shr(shift)
        } else {
            ((v1 as u32) >> shift) as i32
        },
        IntOp::Or => v1 | v2,
        IntOp::Xor => v1 ^ v2,
    }
}

/// The unsigned right shift of a long by an int, as the interpreter computes it (the
/// shift distance is taken modulo 32).
pub open spec fn long_ushr(v1: i64, v2: i32) -> i64 {
    let shift = (v2 & 0x1f) as u32;
    if v1 > 0 {
        v1.wrapping_shr(shift)
    } else {
        ((v1 as u64) >> shift) as i64
    }
}

/// The integer comparisons of the two-operand conditional branches.
#[derive(PartialEq, Eq, Structural, Copy, Clone)]
pub enum IntCondition {
    Ne,
    Gt,
    Ge,
    Eq,
    Lt,
    Le,
}

pub open spec fn int_condition(c: IntCondition, v1: i32, v2: i32) -> bool {
    match c {
        IntCondition::Ne => v1 != v2,
        IntCondition::Gt => v1 > v2,
        IntCondition::Ge => v1 >= v2,
        IntCondition::Eq => v1 == v2,
        IntCondition::Lt => v1 < v2,
        IntCondition::Le => v1 <= v2,
    }
}

/// The value a loadable numeric constant stands for.
pub open spec fn numeric_constant(e: ConstantPoolEntry) -> Option<Value> {
    match e {
        ConstantPoolEntry::Integer(v) => Some(Value::Integer(v)),
        ConstantPoolEntry::Long(v) => Some(Value::Long(v)),
        ConstantPoolEntry::Float(v) => Some(Value::Float(v)),
        ConstantPoolEntry::Double(v) => Some(Value::Double(v)),
        _ => None,
    }
}

/// True when `e` is a constant whose loading needs the machine: a string, a class or a
/// dynamically computed constant.
pub open spec fn machine_constant(e: ConstantPoolEntry) -> bool {
    e is String || e is Class || e is InvokeDynamic
}

/// The constant `index` of the innermost invocation's class.
pub open spec fn frame_constant<'a>(s: Seq<FrameView<'a>>, index: int) -> Option<ConstantPoolEntry> {
    entry_at(s.last().class_and_method.class.constants.0@, index)
}

/// True when loading the constant `index` does not fail outright.
pub open spec fn ldc_defined<'a>(s: Seq<FrameView<'a>>, index: int) -> bool {
    &&& index >= 1
    &&& frame_constant(s, index) matches Some(e)
    &&& numeric_constant(e) is Some ==> room(s, 1)
    &&& numeric_constant(e) is Some || machine_constant(e)
}

pub open spec fn ldc_step<'a>(s: Seq<FrameView<'a>>, index: int) -> (Seq<FrameView<'a>>, StepModel) {
    match numeric_constant(frame_constant(s, index)->Some_0) {
        Some(v) => (with_operand_pushed(s, v), StepModel::Continue),
        None => (s, StepModel::NeedsMachine),
    }
}

/// True when the local variable `index` exists.
pub open spec fn has_local<'a>(s: Seq<FrameView<'a>>, index: int) -> bool {
    0 <= index < locals(s).len()
}

/// Loading an int local: it must hold an int.
pub open spec fn iload_step<'a>(s: Seq<FrameView<'a>>, index: int) -> (Seq<FrameView<'a>>, StepModel) {
    if locals(s)[index] is Integer {
        (with_operand_pushed(s, locals(s)[index]), StepModel::Continue)
    } else {
        (s, StepModel::Invalid)
    }
}

/// Loading a reference local: it must hold a reference, null included.
pub open spec fn aload_step<'a>(s: Seq<FrameView<'a>>, index: int) -> (Seq<FrameView<'a>>, StepModel) {
    if locals(s)[index] is Reference {
        (with_operand_pushed(s, locals(s)[index]), StepModel::Continue)
    } else {
        (s, StepModel::Invalid)
    }
}

/// Loading a long local: it must hold a long followed by its `Dummy` slot.
pub open spec fn lload_step<'a>(s: Seq<FrameView<'a>>, index: int) -> (Seq<FrameView<'a>>, StepModel) {
    if locals(s)[index + 1] != Value::Dummy {
        (s, StepModel::Invalid)
    } else if locals(s)[index] is Long {
        (with_operand_pushed(s, locals(s)[index]), StepModel::Continue)
    } else {
        (s, StepModel::Invalid)
    }
}

/// Storing the top operand in the local `index`.
pub open spec fn store_step<'a>(s: Seq<FrameView<'a>>, index: int) -> (Seq<FrameView<'a>>, StepModel) {
    (with_local_stored(with_operand_popped(s), operand(s, 0), index), StepModel::Continue)
}

/// Storing the top operand, a long, in the local `index` and its `Dummy` after it.
pub open spec fn lstore_step<'a>(s: Seq<FrameView<'a>>, index: int) -> (Seq<FrameView<'a>>, StepModel) {
    (
        with_local_stored(
            with_local_stored(with_operand_popped(s), operand(s, 0), index),
            Value::Dummy,
            index + 1,
        ),
        StepModel::Continue,
    )
}

/// Two int operands combined into one.
pub open spec fn int_op_step<'a>(s: Seq<FrameView<'a>>, op: IntOp) -> (Seq<FrameView<'a>>, StepModel) {
    let rest = popped_n(s, 2);
    if ops(s).len() >= 2 && operand(s, 0) is Integer && operand(s, 1) is Integer {
        (
            with_operand_pushed(
                rest,
                Value::Integer(int_op(op, operand(s, 1)->Integer_0, operand(s, 0)->Integer_0)),
            ),
            StepModel::Continue,
        )
    } else {
        (rest, StepModel::Invalid)
    }
}

/// A long and an int operand combined into a long.
pub open spec fn long_ushr_step<'a>(s: Seq<FrameView<'a>>) -> (Seq<FrameView<'a>>, StepModel) {
    let rest = popped_n(s, 2);
    if ops(s).len() >= 2 && operand(s, 0) is Integer && operand(s, 1) is Long {
        (
            with_operand_pushed(
                rest,
                Value::Long(long_ushr(operand(s, 1)->Long_0, operand(s, 0)->Integer_0)),
            ),
            StepModel::Continue,
        )
    } else {
        (rest, StepModel::Invalid)
    }
}

/// True when the top `n` operands are ints.
pub open spec fn top_ints<'a>(s: Seq<FrameView<'a>>, n: int) -> bool {
    &&& ops(s).len() >= n
    &&& forall|k: int| 0 <= k < n ==> (#[trigger] operand(s, k)) is Integer
}

/// A comparison of two int operands that jumps to `target` when it holds.
pub open spec fn int_branch_step<'a>(s: Seq<FrameView<'a>>, c: IntCondition, target: u16) -> (Seq<FrameView<'a>>, StepModel) {
    let rest = popped_n(s, 2);
    if int_condition(c, operand(s, 1)->Integer_0, operand(s, 0)->Integer_0) {
        (with_pc(rest, target), StepModel::Continue)
    } else {
        (rest, StepModel::Continue)
    }
}

/// The instructions that read or write array elements or lengths on the heap.
pub open spec fn is_array_instruction(i: Instruction) -> bool {
    i is IALOAD || i is IASTORE || i is AASTORE || i is CASTORE || i is BASTORE || i is SASTORE
        || i is ARRAYLENGTH
}

/// True when `v` is a reference other than null.
pub open spec fn non_null(v: Value) -> bool {
    v matches Value::Reference(id) && id.0 != 0
}

/// True when `v`, if it is a reference other than null, is an array of `h` that holds
/// the element `index`.
pub open spec fn element_exists(h: Map<RefId, ReferenceValue>, v: Value, index: int) -> bool {
    non_null(v) ==> {
        &&& h.contains_key(v->Reference_0)
        &&& h[v->Reference_0].spec_is_array()
        &&& 0 <= index < h[v->Reference_0].components().len()
    }
}

/// True when the array instruction `i` can run on `s` and `h` without the interpreter
/// panicking.
pub open spec fn array_step_defined<'a>(s: Seq<FrameView<'a>>, h: Map<RefId, ReferenceValue>, i: Instruction) -> bool {
    match i {
        Instruction::IALOAD => top_ints(s, 1) && (ops(s).len() >= 2 ==> element_exists(
            h,
            operand(s, 1),
            operand(s, 0)->Integer_0 as int,
        )),
        Instruction::ARRAYLENGTH => ops(s).len() >= 1 && non_null(operand(s, 0)) ==> h.contains_key(
            operand(s, 0)->Reference_0,
        ),
        _ => ops(s).len() >= 3 && operand(s, 1) is Integer && element_exists(
            h,
            operand(s, 2),
            operand(s, 1)->Integer_0 as int,
        ),
    }
}

/// True when `h2` is the heap `h` with the component `index` of the object `id`
/// replaced by `value`, and everything else as it was.
pub open spec fn component_written(
    h: Map<RefId, ReferenceValue>,
    h2: Map<RefId, ReferenceValue>,
    id: RefId,
    index: int,
    value: Value,
) -> bool {
    &&& h2.dom() == h.dom()
    &&& ReferenceValue::updated(&h[id], &h2[id], index, value)
    &&& forall|other: RefId| other != id ==> #[trigger] h2.index(other) == h.index(other)
}

/// What the array instruction `i` does to the call stack `s`, and how it ends.
pub open spec fn array_step<'a>(s: Seq<FrameView<'a>>, h: Map<RefId, ReferenceValue>, i: Instruction) -> (
    Seq<FrameView<'a>>,
    StepModel,
) {
    match i {
        Instruction::IALOAD => {
            let rest = popped_n(s, 2);
            if ops(s).len() >= 2 && non_null(operand(s, 1)) {
                let array = h[operand(s, 1)->Reference_0];
                (
                    with_operand_pushed(rest, array.components()[operand(s, 0)->Integer_0 as int]),
                    StepModel::Continue,
                )
            } else {
                (rest, StepModel::Continue)
            }
        },
        Instruction::ARRAYLENGTH => {
            let rest = popped_n(s, 1);
            if ops(s).len() >= 1 && non_null(operand(s, 0)) {
                let object = h[operand(s, 0)->Reference_0];
                if object.spec_is_array() {
                    (
                        with_operand_pushed(rest, Value::Integer(object.components().len() as i32)),
                        StepModel::Continue,
                    )
                } else {
                    (rest, StepModel::Invalid)
                }
            } else if ops(s).len() >= 1 && operand(s, 0) is Reference {
                (rest, StepModel::NullPointer)
            } else {
                (rest, StepModel::Invalid)
            }
        },
        _ => (popped_n(s, 3), StepModel::Continue),
    }
}

/// True when `h2` is what the array instruction `i`, run on `s`, makes of the heap `h`:
/// an element store into an array other than null writes that element; nothing else
/// changes the heap.
pub open spec fn array_heap_effect<'a>(
    s: Seq<FrameView<'a>>,
    h: Map<RefId, ReferenceValue>,
    h2: Map<RefId, ReferenceValue>,
    i: Instruction,
) -> bool {
    if !(i is IALOAD) && !(i is ARRAYLENGTH) && non_null(operand(s, 2)) {
        component_written(h, h2, operand(s, 2)->Reference_0, operand(s, 1)->Integer_0 as int, operand(s, 0))
    } else {
        h2 == h
    }
}

/// True when `block` can run on the call stack `s` (whose innermost invocation has
/// already moved to the next block) and the heap `h` without the interpreter panicking.
pub open spec fn block_defined<'a>(s: Seq<FrameView<'a>>, h: Map<RefId, ReferenceValue>, block: InstructionBlock) -> bool {
    match block {
        InstructionBlock::Single(i) => if is_array_instruction(i) {
            s.len() > 0 && array_step_defined(s, h, i)
        } else {
            step_defined(s, block)
        },
        _ => step_defined(s, block),
    }
}

/// What `block` does to the call stack `s` (whose innermost invocation has already
/// moved to the next block), and how it ends: the array instructions use the heap `h`,
/// every other block acts on the frame alone (see [`spec_step`]).
pub open spec fn spec_block<'a>(s: Seq<FrameView<'a>>, h: Map<RefId, ReferenceValue>, block: InstructionBlock) -> (
    Seq<FrameView<'a>>,
    StepModel,
) {
    match block {
        InstructionBlock::Single(i) => if is_array_instruction(i) {
            array_step(s, h, i)
        } else {
            spec_step(s, block)
        },
        _ => spec_step(s, block),
    }
}

/// True when `h2` is what `block`, run on `s`, makes of the heap `h`.
pub open spec fn heap_effect<'a>(
    s: Seq<FrameView<'a>>,
    h: Map<RefId, ReferenceValue>,
    h2: Map<RefId, ReferenceValue>,
    block: InstructionBlock,
) -> bool {
    match block {
        InstructionBlock::Single(i) => if is_array_instruction(i) {
            array_heap_effect(s, h, h2, i)
        } else {
            h2 == h
        },
        _ => h2 == h,
    }
}

/// True when the block can run on the call stack `s` (whose innermost invocation has
/// already moved to the next block) without the interpreter panicking.
pub open spec fn step_defined<'a>(s: Seq<FrameView<'a>>, block: InstructionBlock) -> bool {
    s.len() > 0 && match block {
        InstructionBlock::Single(i) => match i {
            Instruction::ACONST_NULL => room(s, 1),
            Instruction::ICONST0 => room(s, 1),
            Instruction::ICONST1 => room(s, 1),
            Instruction::ICONST2 => room(s, 1),
            Instruction::ICONST3 => room(s, 1),
            Instruction::ICONST4 => room(s, 1),
            Instruction::ICONST5 => room(s, 1),
            Instruction::BIPUSH(_) => room(s, 1),
            Instruction::SIPUSH(_) => room(s, 1),
            Instruction::LDC(index) => ldc_defined(s, index as int),
            Instruction::LDCW(index) => ldc_defined(s, index as int),
            Instruction::LDC2W(index) => ldc_defined(s, index as int),
            Instruction::ILOAD(index) => has_local(s, index as int) && room(s, 1),
            Instruction::ALOAD(index) => has_local(s, index as int) && room(s, 1),
            Instruction::ALOAD0 => has_local(s, 0) && room(s, 1),
            Instruction::LLOAD0 => has_local(s, 1) && room(s, 1),
            Instruction::LLOAD1 => has_local(s, 2) && room(s, 1),
            Instruction::LLOAD2 => has_local(s, 3) && room(s, 1),
            Instruction::ISTORE(index) => ops(s).len() >= 1 && has_local(s, index as int),
            Instruction::ASTORE(index) => ops(s).len() >= 1 && has_local(s, index as int),
            Instruction::LSTORE0 => ops(s).len() >= 1 && has_local(s, 1),
            Instruction::LSTORE1 => ops(s).len() >= 1 && has_local(s, 2),
            Instruction::LSTORE2 => ops(s).len() >= 1 && has_local(s, 3),
            Instruction::DUP => ops(s).len() >= 1 && room(s, 1),
            Instruction::IINC(index, amount) => (has_local(s, index as int) && locals(s)[index as int] is Integer)
                ==> i32::MIN <= locals(s)[index as int]->Integer_0 + amount <= i32::MAX,
            Instruction::L2I => ops(s).len() >= 1,
            Instruction::IFNE(_) => top_ints(s, 1),
            Instruction::IF_ICMPNE(_) => top_ints(s, 2),
            Instruction::IF_ICMPGT(_) => top_ints(s, 2),
            Instruction::IF_ICMPGE(_) => top_ints(s, 2),
            Instruction::IF_ICMPEQ(_) => top_ints(s, 2),
            Instruction::IF_ICMPLT(_) => top_ints(s, 2),
            Instruction::IF_ICMPLE(_) => top_ints(s, 2),
            Instruction::ARETURN => ops(s).len() >= 1,
            Instruction::IRETURN => ops(s).len() >= 1,
            Instruction::IFNONNULL(_) => ops(s).len() >= 1,
            _ => true,
        },
        InstructionBlock::AStoreWithoutPop(index) => ops(s).len() >= 1 && has_local(s, index as int),
        _ => true,
    }
}

/// What the block does to the call stack `s` (whose innermost invocation has already
/// moved to the next block), and how it ends.
pub open spec fn spec_step<'a>(s: Seq<FrameView<'a>>, block: InstructionBlock) -> (Seq<FrameView<'a>>, StepModel) {
    match block {
        InstructionBlock::Single(i) => match i {
            Instruction::ACONST_NULL => (with_operand_pushed(s, Value::Reference(RefId(0))), StepModel::Continue),
            Instruction::ICONST0 => (with_operand_pushed(s, Value::Integer(0)), StepModel::Continue),
            Instruction::ICONST1 => (with_operand_pushed(s, Value::Integer(1)), StepModel::Continue),
            Instruction::ICONST2 => (with_operand_pushed(s, Value::Integer(2)), StepModel::Continue),
            Instruction::ICONST3 => (with_operand_pushed(s, Value::Integer(3)), StepModel::Continue),
            Instruction::ICONST4 => (with_operand_pushed(s, Value::Integer(4)), StepModel::Continue),
            Instruction::ICONST5 => (with_operand_pushed(s, Value::Integer(5)), StepModel::Continue),
            Instruction::BIPUSH(v) => (with_operand_pushed(s, Value::Integer(v as i32)), StepModel::Continue),
            Instruction::SIPUSH(v) => (with_operand_pushed(s, Value::Integer(v as i32)), StepModel::Continue),
            Instruction::LDC(index) => ldc_step(s, index as int),
            Instruction::LDCW(index) => ldc_step(s, index as int),
            Instruction::LDC2W(index) => ldc_step(s, index as int),
            Instruction::ILOAD(index) => iload_step(s, index as int),
            Instruction::ALOAD(index) => aload_step(s, index as int),
            Instruction::ALOAD0 => aload_step(s, 0),
            Instruction::LLOAD0 => lload_step(s, 0),
            Instruction::LLOAD1 => lload_step(s, 1),
            Instruction::LLOAD2 => lload_step(s, 2),
            Instruction::IALOAD => (s, StepModel::NeedsMachine),
            Instruction::ISTORE(index) => store_step(s, index as int),
            Instruction::ASTORE(index) => store_step(s, index as int),
            Instruction::LSTORE0 => lstore_step(s, 0),
            Instruction::LSTORE1 => lstore_step(s, 1),
            Instruction::LSTORE2 => lstore_step(s, 2),
            Instruction::IASTORE => (s, StepModel::NeedsMachine),
            Instruction::AASTORE => (s, StepModel::NeedsMachine),
            Instruction::CASTORE => (s, StepModel::NeedsMachine),
            Instruction::BASTORE => (s, StepModel::NeedsMachine),
            Instruction::SASTORE => (s, StepModel::NeedsMachine),
            Instruction::DUP => (with_operand_pushed(s, operand(s, 0)), StepModel::Continue),
            Instruction::IADD => int_op_step(s, IntOp::Add),
            Instruction::IMUL => int_op_step(s, IntOp::Mul),
            Instruction::ISHL => int_op_step(s, IntOp::Shl),
            Instruction::IUSHR => int_op_step(s, IntOp::Ushr),
            Instruction::LUSHR => long_ushr_step(s),
            Instruction::IOR => int_op_step(s, IntOp::Or),
            Instruction::IXOR => int_op_step(s, IntOp::Xor),
            Instruction::IINC(index, amount) => if has_local(s, index as int) && locals(s)[index as int] is Integer {
                (
                    with_local_stored(
                        s,
                        Value::Integer((locals(s)[index as int]->Integer_0 + amount) as i32),
                        index as int,
                    ),
                    StepModel::Continue,
                )
            } else {
                (s, StepModel::Continue)
            },
            Instruction::L2I => if operand(s, 0) is Long {
                (
                    with_operand_pushed(
                        with_operand_popped(s),
                        Value::Integer(operand(s, 0)->Long_0 as i32),
                    ),
                    StepModel::Continue,
                )
            } else {
                (with_operand_popped(s), StepModel::Continue)
            },
            Instruction::IFNE(target) => if operand(s, 0)->Integer_0 != 0 {
                (with_pc(with_operand_popped(s), target), StepModel::Continue)
            } else {
                (with_operand_popped(s), StepModel::Continue)
            },
            Instruction::IF_ICMPNE(target) => int_branch_step(s, IntCondition::Ne, target),
            Instruction::IF_ICMPGT(target) => int_branch_step(s, IntCondition::Gt, target),
            Instruction::IF_ICMPGE(target) => int_branch_step(s, IntCondition::Ge, target),
            Instruction::IF_ICMPEQ(target) => int_branch_step(s, IntCondition::Eq, target),
            Instruction::IF_ICMPLT(target) => int_branch_step(s, IntCondition::Lt, target),
            Instruction::IF_ICMPLE(target) => int_branch_step(s, IntCondition::Le, target),
            Instruction::GOTO(target) => (with_pc(s, target), StepModel::Continue),
            Instruction::INVOKEVIRTUAL(_) => (s, StepModel::NeedsMachine),
            Instruction::INVOKESPECIAL(_) => (s, StepModel::NeedsMachine),
            Instruction::INVOKESTATIC(_) => (s, StepModel::NeedsMachine),
            Instruction::INVOKEINTERFACE(_, _, _) => (s, StepModel::NeedsMachine),
            Instruction::ARETURN => (with_operand_popped(s), StepModel::Return(Some(operand(s, 0)))),
            Instruction::IRETURN => (with_operand_popped(s), StepModel::Return(Some(operand(s, 0)))),
            Instruction::RETURN => (s, StepModel::Return(None)),
            Instruction::PUTSTATIC(_) => (s, StepModel::NeedsMachine),
            Instruction::GETSTATIC(_) => (s, StepModel::NeedsMachine),
            Instruction::NEW(_) => (s, StepModel::NeedsMachine),
            Instruction::NEWARRAY(_) => (s, StepModel::NeedsMachine),
            Instruction::ANEWARRAY(_) => (s, StepModel::NeedsMachine),
            Instruction::ARRAYLENGTH => (s, StepModel::NeedsMachine),
            Instruction::IFNONNULL(target) => match operand(s, 0) {
                Value::Reference(id) => if id.0 != 0 {
                    (with_pc(with_operand_popped(s), target), StepModel::Continue)
                } else {
                    (with_operand_popped(s), StepModel::Continue)
                },
                _ => (with_operand_popped(s), StepModel::Continue),
            },
            _ => (s, StepModel::NotExecutable),
        },
        InstructionBlock::AStoreWithoutPop(index) => (
            with_local_stored(s, operand(s, 0), index as int),
            StepModel::Continue,
        ),
        _ => (s, StepModel::NotExecutable),
    }
}

fn push(stack: &mut CallStack, value: Value)
    requires
        old(stack)@.len() > 0,
        room(old(stack)@, 1),
        operands_fit(old(stack)@),
    ensures
        final(stack)@ == with_operand_pushed(old(stack)@, value),
        operands_fit(final(stack)@),
        same_outer(old(stack)@, final(stack)@),
{
    stack.push_operand_value(value);
    proof {
        let t = stack@;
        assert forall|i: int| 0 <= i < t.len() implies (#[trigger] t[i]).operands.len() <= t[i].max_stack by {
            assert(old(stack)@[i].operands.len() <= old(stack)@[i].max_stack);
        }
        assert(t.drop_last() =~~= old(stack)@.drop_last());
    }
}

fn jump(stack: &mut CallStack, target: u16)
    requires
        old(stack)@.len() > 0,
        operands_fit(old(stack)@),
    ensures
        final(stack)@ == with_pc(old(stack)@, target),
        operands_fit(final(stack)@),
        same_outer(old(stack)@, final(stack)@),
{
    stack.set_pc(target);
    proof {
        let t = stack@;
        assert forall|i: int| 0 <= i < t.len() implies (#[trigger] t[i]).operands.len() <= t[i].max_stack by {
            assert(old(stack)@[i].operands.len() <= old(stack)@[i].max_stack);
        }
        assert(t.drop_last() =~~= old(stack)@.drop_last());
    }
}

fn put_local(stack: &mut CallStack, value: Value, index: usize)
    requires
        old(stack)@.len() > 0,
        has_local(old(stack)@, index as int),
        operands_fit(old(stack)@),
    ensures
        final(stack)@ == with_local_stored(old(stack)@, value, index as int),
        operands_fit(final(stack)@),
        same_outer(old(stack)@, final(stack)@),
{
    stack.store_local(value, index);
    proof {
        let t = stack@;
        assert forall|i: int| 0 <= i < t.len() implies (#[trigger] t[i]).operands.len() <= t[i].max_stack by {
            assert(old(stack)@[i].operands.len() <= old(stack)@[i].max_stack);
        }
        assert(t.drop_last() =~~= old(stack)@.drop_last());
    }
}

fn pop(stack: &mut CallStack) -> (r: Value)
    requires
        old(stack)@.len() > 0,
        ops(old(stack)@).len() >= 1,
        operands_fit(old(stack)@),
    ensures
        r == operand(old(stack)@, 0),
        final(stack)@ == with_operand_popped(old(stack)@),
        operands_fit(final(stack)@),
        same_outer(old(stack)@, final(stack)@),
{
    let r = match stack.pop_operand_value() {
        Some(v) => v,
        None => {
            proof {
                assert(false);
            }
            Value::Uninitialized
        },
    };
    proof {
        let t = stack@;
        assert forall|i: int| 0 <= i < t.len() implies (#[trigger] t[i]).operands.len() <= t[i].max_stack by {
            assert(old(stack)@[i].operands.len() <= old(stack)@[i].max_stack);
        }
        assert(t.drop_last() =~~= old(stack)@.drop_last());
    }
    r
}

fn pop_int(stack: &mut CallStack) -> (r: i32)
    requires
        old(stack)@.len() > 0,
        top_ints(old(stack)@, 1),
        operands_fit(old(stack)@),
    ensures
        operands_fit(final(stack)@),
        same_outer(old(stack)@, final(stack)@),
        Value::Integer(r) == operand(old(stack)@, 0),
        final(stack)@ == with_operand_popped(old(stack)@),
{
    assert(operand(old(stack)@, 0) is Integer);
    match pop(stack) {
        Value::Integer(v) => v,
        _ => {
            proof {
                assert(false);
            }
            0
        },
    }
}

fn load(stack: &CallStack, index: usize) -> (r: Value)
    requires
        stack@.len() > 0,
        has_local(stack@, index as int),
    ensures
        r == locals(stack@)[index as int],
{
    match stack.load_local(index) {
        Some(v) => v,
        None => {
            proof {
                assert(false);
            }
            Value::Uninitialized
        },
    }
}

fn iload(stack: &mut CallStack, index: usize) -> (r: StepModel)
    requires
        old(stack)@.len() > 0,
        has_local(old(stack)@, index as int),
        room(old(stack)@, 1),
        operands_fit(old(stack)@),
    ensures
        operands_fit(final(stack)@),
        same_outer(old(stack)@, final(stack)@),
        (final(stack)@, r) == iload_step(old(stack)@, index as int),
{
    let value = load(stack, index);
    if let Value::Integer(_) = value {
        push(stack, value);
        StepModel::Continue
    } else {
        StepModel::Invalid
    }
}

fn aload(stack: &mut CallStack, index: usize) -> (r: StepModel)
    requires
        old(stack)@.len() > 0,
        has_local(old(stack)@, index as int),
        room(old(stack)@, 1),
        operands_fit(old(stack)@),
    ensures
        operands_fit(final(stack)@),
        same_outer(old(stack)@, final(stack)@),
        (final(stack)@, r) == aload_step(old(stack)@, index as int),
{
    let value = load(stack, index);
    if let Value::Reference(_) = value {
        push(stack, value);
        StepModel::Continue
    } else {
        StepModel::Invalid
    }
}

fn lload(stack: &mut CallStack, index: usize) -> (r: StepModel)
    requires
        index <= 2,
        old(stack)@.len() > 0,
        has_local(old(stack)@, index + 1),
        room(old(stack)@, 1),
        operands_fit(old(stack)@),
    ensures
        operands_fit(final(stack)@),
        same_outer(old(stack)@, final(stack)@),
        (final(stack)@, r) == lload_step(old(stack)@, index as int),
{
    let local = load(stack, index);
    let dummy = load(stack, index + 1);
    if dummy != Value::Dummy {
        return StepModel::Invalid;
    }
    if let Value::Long(_) = local {
        push(stack, local);
        StepModel::Continue
    } else {
        StepModel::Invalid
    }
}

fn store(stack: &mut CallStack, index: usize) -> (r: StepModel)
    requires
        old(stack)@.len() > 0,
        ops(old(stack)@).len() >= 1,
        has_local(old(stack)@, index as int),
        operands_fit(old(stack)@),
    ensures
        operands_fit(final(stack)@),
        same_outer(old(stack)@, final(stack)@),
        (final(stack)@, r) == store_step(old(stack)@, index as int),
{
    let value = pop(stack);
    put_local(stack, value, index);
    StepModel::Continue
}

fn lstore(stack: &mut CallStack, index: usize) -> (r: StepModel)
    requires
        index <= 2,
        old(stack)@.len() > 0,
        ops(old(stack)@).len() >= 1,
        has_local(old(stack)@, index + 1),
        operands_fit(old(stack)@),
    ensures
        operands_fit(final(stack)@),
        same_outer(old(stack)@, final(stack)@),
        (final(stack)@, r) == lstore_step(old(stack)@, index as int),
{
    let value = pop(stack);
    put_local(stack, value, index);
    put_local(stack, Value::Dummy, index + 1);
    StepModel::Continue
}

fn compute_int_op(op: IntOp, v1: i32, v2: i32) -> (r: i32)
    ensures
        r == int_op(op, v1, v2),
{
    let masked = v2 & 0x1f;
    assert(0 <= masked < 32) by (bit_vector)
        requires
            masked == v2 & 0x1f,
    ;
    let shift = masked as u32;
    match op {
        IntOp::Add => v1.wrapping_add(v2),
        IntOp::Mul => v1.wrapping_mul(v2),
        IntOp::Shl => v1.wrapping_shl(shift),
        IntOp::Ushr => if v1 > 0 {
            v1.wrapping_shr(shift)
        } else {
            ((v1 as u32) >> shift) as i32
        },
        IntOp::Or => v1 | v2,
        IntOp::Xor => v1 ^ v2,
    }
}

fn pop_two(stack: &mut CallStack) -> (r: (Option<Value>, Option<Value>))
    requires
        old(stack)@.len() > 0,
        operands_fit(old(stack)@),
    ensures
        final(stack)@ == popped_n(old(stack)@, 2),
        operands_fit(final(stack)@),
        same_outer(old(stack)@, final(stack)@),
        ops(old(stack)@).len() >= 2 ==> r == (Some(operand(old(stack)@, 1)), Some(
            operand(old(stack)@, 0),
        )),
        ops(old(stack)@).len() < 2 ==> r.0 is None,
{
    let value2 = stack.pop_operand_value();
    let value1 = stack.pop_operand_value();
    proof {
        let s = old(stack)@;
        let n = ops(s).len();
        if n >= 2 {
            assert(ops(s).take(n - 1).last() == operand(s, 1));
        }
        assert(final(stack)@ =~~= popped_n(s, 2));
        let t = stack@;
        assert forall|i: int| 0 <= i < t.len() implies (#[trigger] t[i]).operands.len() <= t[i].max_stack by {
            assert(old(stack)@[i].operands.len() <= old(stack)@[i].max_stack);
        }
        assert(t.drop_last() =~~= old(stack)@.drop_last());
    }
    (value1, value2)
}

fn execute_i_arithmetic(stack: &mut CallStack, op: IntOp) -> (r: StepModel)
    requires
        old(stack)@.len() > 0,
        operands_fit(old(stack)@),
    ensures
        operands_fit(final(stack)@),
        same_outer(old(stack)@, final(stack)@),
        (final(stack)@, r) == int_op_step(old(stack)@, op),
{
    let (value1, value2) = pop_two(stack);
    if let (Some(Value::Integer(val1)), Some(Value::Integer(val2))) = (value1, value2) {
        let res = compute_int_op(op, val1, val2);
        push(stack, Value::Integer(res));
        StepModel::Continue
    } else {
        StepModel::Invalid
    }
}

fn execute_ji_arithmetic(stack: &mut CallStack) -> (r: StepModel)
    requires
        old(stack)@.len() > 0,
        operands_fit(old(stack)@),
    ensures
        operands_fit(final(stack)@),
        same_outer(old(stack)@, final(stack)@),
        (final(stack)@, r) == long_ushr_step(old(stack)@),
{
    let (value1, value2) = pop_two(stack);
    if let (Some(Value::Long(val1)), Some(Value::Integer(val2))) = (value1, value2) {
        let masked = val2 & 0x1f;
        assert(0 <= masked < 32) by (bit_vector)
            requires
                masked == val2 & 0x1f,
        ;
        let shift = masked as u32;
        let res = if val1 > 0 {
            val1.wrapping_shr(shift)
        } else {
            ((val1 as u64) >> shift) as i64
        };
        push(stack, Value::Long(res));
        StepModel::Continue
    } else {
        StepModel::Invalid
    }
}

fn execute_i_branch(stack: &mut CallStack, c: IntCondition, target: u16) -> (r: StepModel)
    requires
        old(stack)@.len() > 0,
        top_ints(old(stack)@, 2),
        operands_fit(old(stack)@),
    ensures
        operands_fit(final(stack)@),
        same_outer(old(stack)@, final(stack)@),
        (final(stack)@, r) == int_branch_step(old(stack)@, c, target),
{
    assert(operand(old(stack)@, 0) is Integer);
    assert(operand(old(stack)@, 1) is Integer);
    let val2 = pop_int(stack);
    proof {
        assert(operand(stack@, 0) == operand(old(stack)@, 1));
    }
    let val1 = pop_int(stack);
    proof {
        assert(stack@ =~~= popped_n(old(stack)@, 2));
    }
    let taken = match c {
        IntCondition::Ne => val1 != val2,
        IntCondition::Gt => val1 > val2,
        IntCondition::Ge => val1 >= val2,
        IntCondition::Eq => val1 == val2,
        IntCondition::Lt => val1 < val2,
        IntCondition::Le => val1 <= val2,
    };
    if taken {
        jump(stack, target);
    }
    StepModel::Continue
}

fn ldc(stack: &mut CallStack, index: u16) -> (r: StepModel)
    requires
        old(stack)@.len() > 0,
        ldc_defined(old(stack)@, index as int),
        operands_fit(old(stack)@),
    ensures
        operands_fit(final(stack)@),
        same_outer(old(stack)@, final(stack)@),
        (final(stack)@, r) == ldc_step(old(stack)@, index as int),
{
    let cam = stack.get_class_and_method_cloned();
    match cam.class.get_constant(index) {
        Some(ConstantPoolEntry::Integer(v)) => {
            push(stack, Value::Integer(v));
            StepModel::Continue
        },
        Some(ConstantPoolEntry::Long(v)) => {
            push(stack, Value::Long(v));
            StepModel::Continue
        },
        Some(ConstantPoolEntry::Float(v)) => {
            push(stack, Value::Float(v));
            StepModel::Continue
        },
        Some(ConstantPoolEntry::Double(v)) => {
            push(stack, Value::Double(v));
            StepModel::Continue
        },
        _ => StepModel::NeedsMachine,
    }
}

fn run_instruction(stack: &mut CallStack, instruction: &Instruction) -> (r: StepModel)
    requires
        step_defined(old(stack)@, InstructionBlock::Single(*instruction)),
        operands_fit(old(stack)@),
    ensures
        operands_fit(final(stack)@),
        same_outer(old(stack)@, final(stack)@),
        (final(stack)@, r) == spec_step(old(stack)@, InstructionBlock::Single(*instruction)),
{
    match instruction {
        Instruction::ACONST_NULL => {
            push(stack, Value::Reference(RefId(0)));
            StepModel::Continue
        },
        Instruction::ICONST0 => {
            push(stack, Value::Integer(0));
            StepModel::Continue
        },
        Instruction::ICONST1 => {
            push(stack, Value::Integer(1));
            StepModel::Continue
        },
        Instruction::ICONST2 => {
            push(stack, Value::Integer(2));
            StepModel::Continue
        },
        Instruction::ICONST3 => {
            push(stack, Value::Integer(3));
            StepModel::Continue
        },
        Instruction::ICONST4 => {
            push(stack, Value::Integer(4));
            StepModel::Continue
        },
        Instruction::ICONST5 => {
            push(stack, Value::Integer(5));
            StepModel::Continue
        },
        Instruction::BIPUSH(value) => {
            push(stack, Value::Integer(*value as i32));
            StepModel::Continue
        },
        Instruction::SIPUSH(value) => {
            push(stack, Value::Integer(*value as i32));
            StepModel::Continue
        },
        Instruction::LDC(index) => ldc(stack, *index as u16),
        Instruction::LDCW(index) => ldc(stack, *index),
        Instruction::LDC2W(index) => ldc(stack, *index),
        Instruction::ILOAD(index) => iload(stack, *index as usize),
        Instruction::ALOAD(index) => aload(stack, *index as usize),
        Instruction::LLOAD0 => lload(stack, 0),
        Instruction::LLOAD1 => lload(stack, 1),
        Instruction::LLOAD2 => lload(stack, 2),
        Instruction::ALOAD0 => aload(stack, 0),
        Instruction::ISTORE(index) => store(stack, *index as usize),
        Instruction::ASTORE(index) => store(stack, *index as usize),
        Instruction::LSTORE0 => lstore(stack, 0),
        Instruction::LSTORE1 => lstore(stack, 1),
        Instruction::LSTORE2 => lstore(stack, 2),
        Instruction::DUP => {
            let top = pop(stack);
            push(stack, top);
            push(stack, top);
            proof {
                assert(stack@ =~~= with_operand_pushed(old(stack)@, top));
            }
            StepModel::Continue
        },
        Instruction::IADD => execute_i_arithmetic(stack, IntOp::Add),
        Instruction::IMUL => execute_i_arithmetic(stack, IntOp::Mul),
        Instruction::ISHL => execute_i_arithmetic(stack, IntOp::Shl),
        Instruction::IUSHR => execute_i_arithmetic(stack, IntOp::Ushr),
        Instruction::LUSHR => execute_ji_arithmetic(stack),
        Instruction::IOR => execute_i_arithmetic(stack, IntOp::Or),
        Instruction::IXOR => execute_i_arithmetic(stack, IntOp::Xor),
        Instruction::IINC(index, amount) => {
            if let Some(Value::Integer(value)) = stack.load_local(*index as usize) {
                put_local(stack, Value::Integer(value + *amount as i32), *index as usize);
            }
            StepModel::Continue
        },
        Instruction::L2I => {
            let value = pop(stack);
            if let Value::Long(long) = value {
                push(stack, Value::Integer(long as i32));
            }
            StepModel::Continue
        },
        Instruction::IFNE(target) => {
            let value = pop_int(stack);
            if value != 0 {
                jump(stack, *target);
            }
            StepModel::Continue
        },
        Instruction::IF_ICMPNE(target) => execute_i_branch(stack, IntCondition::Ne, *target),
        Instruction::IF_ICMPGT(target) => execute_i_branch(stack, IntCondition::Gt, *target),
        Instruction::IF_ICMPGE(target) => execute_i_branch(stack, IntCondition::Ge, *target),
        Instruction::IF_ICMPEQ(target) => execute_i_branch(stack, IntCondition::Eq, *target),
        Instruction::IF_ICMPLT(target) => execute_i_branch(stack, IntCondition::Lt, *target),
        Instruction::IF_ICMPLE(target) => execute_i_branch(stack, IntCondition::Le, *target),
        Instruction::GOTO(target) => {
            jump(stack, *target);
            StepModel::Continue
        },
        Instruction::ARETURN | Instruction::IRETURN => {
            let value = pop(stack);
            StepModel::Return(Some(value))
        },
        Instruction::RETURN => StepModel::Return(None),
        Instruction::IFNONNULL(target) => {
            let reference = pop(stack);
            if let Value::Reference(id) = reference {
                if id.0 != 0 {
                    jump(stack, *target);
                }
            }
            StepModel::Continue
        },
        Instruction::IALOAD | Instruction::IASTORE | Instruction::AASTORE | Instruction::CASTORE
        | Instruction::BASTORE | Instruction::SASTORE | Instruction::INVOKEVIRTUAL(_)
        | Instruction::INVOKESPECIAL(_) | Instruction::INVOKESTATIC(_)
        | Instruction::INVOKEINTERFACE(_, _, _) | Instruction::PUTSTATIC(_)
        | Instruction::GETSTATIC(_) | Instruction::NEW(_) | Instruction::NEWARRAY(_)
        | Instruction::ANEWARRAY(_) | Instruction::ARRAYLENGTH => StepModel::NeedsMachine,
        _ => StepModel::NotExecutable,
    }
}

/// The argument slots a value fills: a long or a double is followed by a `Dummy`.
pub open spec fn slots(v: Value) -> Seq<Value> {
    if v is Long || v is Double {
        seq![v, Value::Dummy]
    } else {
        seq![v]
    }
}

/// `values` as they fill argument slots.
pub open spec fn with_dummies(values: Seq<Value>) -> Seq<Value>
    decreases values.len(),
{
    if values.len() == 0 {
        Seq::empty()
    } else {
        with_dummies(values.drop_last()) + slots(values.last())
    }
}

proof fn lemma_with_dummies_prepend(v: Value, rest: Seq<Value>)
    ensures
        with_dummies(seq![v] + rest) == slots(v) + with_dummies(rest),
    decreases rest.len(),
{
    if rest.len() == 0 {
        assert(seq![v] + rest =~= seq![v]);
        assert(seq![v].drop_last() =~= Seq::<Value>::empty());
        assert(seq![v].last() == v);
        assert(with_dummies(Seq::<Value>::empty()) =~= Seq::<Value>::empty());
        assert(with_dummies(seq![v]) == with_dummies(seq![v].drop_last()) + slots(v));
        assert(with_dummies(seq![v]) =~= slots(v));
        assert(slots(v) + with_dummies(rest) =~= slots(v));
    } else {
        let whole = seq![v] + rest;
        assert(whole.drop_last() =~= seq![v] + rest.drop_last());
        assert(whole.last() == rest.last());
        lemma_with_dummies_prepend(v, rest.drop_last());
        assert(with_dummies(whole) =~= slots(v) + with_dummies(rest));
    }
}

/// Takes the `count` arguments of a call from the innermost operand stack, the first
/// argument being the deepest, and lays them out as argument slots. Too few operands
/// make the interpreter panic; that is left out by the precondition.
pub fn pop_arguments(stack: &mut CallStack, count: usize) -> (r: Vec<Value>)
    requires
        old(stack)@.len() > 0,
        ops(old(stack)@).len() >= count,
        operands_fit(old(stack)@),
    ensures
        final(stack)@ == popped_n(old(stack)@, count as int),
        r@ == with_dummies(ops(old(stack)@).skip(ops(old(stack)@).len() - count)),
        operands_fit(final(stack)@),
{
    let ghost all = ops(old(stack)@);
    let ghost n: int = all.len() as int;
    let mut args: Vec<Value> = Vec::new();
    let mut i: usize = 0;
    assert(args@ =~= with_dummies(all.subrange(n - 0, n)));
    assert(old(stack)@ =~~= popped_n(old(stack)@, 0));
    while i < count
        invariant
            i <= count,
            count <= n,
            n == all.len(),
            all == ops(old(stack)@),
            stack@.len() == old(stack)@.len(),
            stack@.len() > 0,
            stack@ == popped_n(old(stack)@, i as int),
            operands_fit(stack@),
            args@ == with_dummies(all.subrange(n - i, n)),
        decreases count - i,
    {
        let ghost before = stack@;
        assert(ops(before) =~= all.take(n - i));
        let popped = pop(stack);
        assert(popped == all[n - i - 1]);
        if let Value::Long(_) = popped {
            args.insert(0, Value::Dummy);
        } else if let Value::Double(_) = popped {
            args.insert(0, Value::Dummy);
        }
        args.insert(0, popped);
        proof {
            let tail = all.subrange(n - i - 1, n);
            assert(tail =~= seq![popped] + all.subrange(n - i, n));
            lemma_with_dummies_prepend(popped, all.subrange(n - i, n));
            assert(args@ =~= slots(popped) + with_dummies(all.subrange(n - i, n)));
            assert(stack@ =~~= popped_n(old(stack)@, i + 1));
        }
        i = i + 1;
    }
    assert(all.subrange(n - count, n) =~= all.skip(n - count));
    args
}

/// The element type of the primitive array that `NEWARRAY` creates, by its type code.
pub open spec fn spec_array_element_type(atype: u8) -> PrimitiveType {
    if atype == 4 {
        PrimitiveType::Boolean
    } else if atype == 5 {
        PrimitiveType::Char
    } else if atype == 6 {
        PrimitiveType::Float
    } else if atype == 7 {
        PrimitiveType::Double
    } else if atype == 8 {
        PrimitiveType::Byte
    } else if atype == 9 {
        PrimitiveType::Short
    } else if atype == 10 {
        PrimitiveType::Integer
    } else {
        PrimitiveType::Long
    }
}

/// The element type of the primitive array that `NEWARRAY` creates, by its type code.
/// Other codes make the interpreter panic; they are left out by the precondition.
pub fn array_element_type(atype: u8) -> (r: PrimitiveType)
    requires
        4 <= atype <= 11,
    ensures
        r == spec_array_element_type(atype),
{
    match atype {
        4 => PrimitiveType::Boolean,
        5 => PrimitiveType::Char,
        6 => PrimitiveType::Float,
        7 => PrimitiveType::Double,
        8 => PrimitiveType::Byte,
        9 => PrimitiveType::Short,
        10 => PrimitiveType::Integer,
        _ => PrimitiveType::Long,
    }
}

fn room_for_one(stack: &CallStack) -> (r: bool)
    requires
        stack@.len() > 0,
    ensures
        r == room(stack@, 1),
{
    stack.operand_count() < stack.max_stack()
}

fn local_exists(stack: &CallStack, index: usize) -> (r: bool)
    requires
        stack@.len() > 0,
    ensures
        r == has_local(stack@, index as int),
{
    stack.load_local(index).is_some()
}

fn int_on_top(stack: &CallStack, k: usize) -> (r: bool)
    requires
        stack@.len() > 0,
    ensures
        r == (k < ops(stack@).len() && operand(stack@, k as int) is Integer),
{
    match stack.peek_operand(k) {
        Some(Value::Integer(_)) => true,
        _ => false,
    }
}

fn ldc_can_run(stack: &CallStack, index: u16) -> (r: bool)
    requires
        stack@.len() > 0,
    ensures
        r == ldc_defined(stack@, index as int),
{
    if index == 0 {
        return false;
    }
    let cam = stack.get_class_and_method_cloned();
    match cam.class.get_constant(index) {
        Some(ConstantPoolEntry::Integer(_)) | Some(ConstantPoolEntry::Long(_))
        | Some(ConstantPoolEntry::Float(_)) | Some(ConstantPoolEntry::Double(_)) => room_for_one(stack),
        Some(ConstantPoolEntry::String(_)) | Some(ConstantPoolEntry::Class(_))
        | Some(ConstantPoolEntry::InvokeDynamic(_, _)) => true,
        _ => false,
    }
}

fn instruction_can_run(stack: &CallStack, instruction: &Instruction) -> (r: bool)
    requires
        stack@.len() > 0,
    ensures
        r == step_defined(stack@, InstructionBlock::Single(*instruction)),
{
    let count = stack.operand_count();
    match instruction {
        Instruction::ACONST_NULL | Instruction::ICONST0 | Instruction::ICONST1 | Instruction::ICONST2
        | Instruction::ICONST3 | Instruction::ICONST4 | Instruction::ICONST5 | Instruction::BIPUSH(_)
        | Instruction::SIPUSH(_) => room_for_one(stack),
        Instruction::LDC(index) => ldc_can_run(stack, *index as u16),
        Instruction::LDCW(index) => ldc_can_run(stack, *index),
        Instruction::LDC2W(index) => ldc_can_run(stack, *index),
        Instruction::ILOAD(index) | Instruction::ALOAD(index) => local_exists(stack, *index as usize)
            && room_for_one(stack),
        Instruction::ALOAD0 => local_exists(stack, 0) && room_for_one(stack),
        Instruction::LLOAD0 => local_exists(stack, 1) && room_for_one(stack),
        Instruction::LLOAD1 => local_exists(stack, 2) && room_for_one(stack),
        Instruction::LLOAD2 => local_exists(stack, 3) && room_for_one(stack),
        Instruction::ISTORE(index) | Instruction::ASTORE(index) => count >= 1 && local_exists(
            stack,
            *index as usize,
        ),
        Instruction::LSTORE0 => count >= 1 && local_exists(stack, 1),
        Instruction::LSTORE1 => count >= 1 && local_exists(stack, 2),
        Instruction::LSTORE2 => count >= 1 && local_exists(stack, 3),
        Instruction::DUP => count >= 1 && room_for_one(stack),
        Instruction::IINC(index, amount) => match stack.load_local(*index as usize) {
            Some(Value::Integer(v)) => {
                let sum = v as i64 + *amount as i64;
                -0x8000_0000 <= sum && sum <= 0x7fff_ffff
            },
            _ => true,
        },
        Instruction::L2I | Instruction::ARETURN | Instruction::IRETURN | Instruction::IFNONNULL(_) => count
            >= 1,
        Instruction::IFNE(_) => {
            let r = int_on_top(stack, 0);
            proof {
                assert(r == top_ints(stack@, 1)) by {
                    if r {
                        assert forall|k: int| 0 <= k < 1 implies (#[trigger] operand(stack@, k)) is Integer by {
                            assert(k == 0);
                        }
                    }
                }
            }
            r
        },
        Instruction::IF_ICMPNE(_) | Instruction::IF_ICMPGT(_) | Instruction::IF_ICMPGE(_)
        | Instruction::IF_ICMPEQ(_) | Instruction::IF_ICMPLT(_) | Instruction::IF_ICMPLE(_) => {
            let r = int_on_top(stack, 0) && int_on_top(stack, 1);
            proof {
                assert(r == top_ints(stack@, 2)) by {
                    if r {
                        assert forall|k: int| 0 <= k < 2 implies (#[trigger] operand(stack@, k)) is Integer by {
                            assert(k == 0 || k == 1);
                        }
                    }
                    if top_ints(stack@, 2) {
                        assert(operand(stack@, 0) is Integer);
                        assert(operand(stack@, 1) is Integer);
                    }
                }
            }
            r
        },
        _ => true,
    }
}

fn is_array_op(i: &Instruction) -> (r: bool)
    ensures
        r == is_array_instruction(*i),
{
    match i {
        Instruction::IALOAD | Instruction::IASTORE | Instruction::AASTORE | Instruction::CASTORE
        | Instruction::BASTORE | Instruction::SASTORE | Instruction::ARRAYLENGTH => true,
        _ => false,
    }
}

fn pop_one(stack: &mut CallStack) -> (r: Option<Value>)
    requires
        old(stack)@.len() > 0,
        operands_fit(old(stack)@),
    ensures
        final(stack)@ == popped_n(old(stack)@, 1),
        ops(old(stack)@).len() >= 1 ==> r == Some(operand(old(stack)@, 0)),
        ops(old(stack)@).len() < 1 ==> r is None,
        operands_fit(final(stack)@),
        same_outer(old(stack)@, final(stack)@),
{
    let r = stack.pop_operand_value();
    proof {
        let t = stack@;
        assert(t =~~= popped_n(old(stack)@, 1));
        assert forall|i: int| 0 <= i < t.len() implies (#[trigger] t[i]).operands.len() <= t[i].max_stack by {
            assert(old(stack)@[i].operands.len() <= old(stack)@[i].max_stack);
        }
        assert(t.drop_last() =~~= old(stack)@.drop_last());
    }
    r
}

fn run_array_instruction(stack: &mut CallStack, heap: &mut Heap, instruction: &Instruction) -> (r: StepModel)
    requires
        old(stack)@.len() > 0,
        operands_fit(old(stack)@),
        old(heap).wf(),
        is_array_instruction(*instruction),
        array_step_defined(old(stack)@, old(heap)@, *instruction),
    ensures
        (final(stack)@, r) == array_step(old(stack)@, old(heap)@, *instruction),
        array_heap_effect(old(stack)@, old(heap)@, final(heap)@, *instruction),
        final(heap).wf(),
        operands_fit(final(stack)@),
        same_outer(old(stack)@, final(stack)@),
{
    match instruction {
        Instruction::IALOAD => {
            let (array, index) = pop_two(stack);
            if let (Some(Value::Reference(id)), Some(Value::Integer(i))) = (array, index) {
                if id.0 != 0 {
                    match heap.resolve_object_by_id(id) {
                        Ok(object) => {
                            let element = object.get_element(i as usize);
                            push(stack, element);
                        },
                        Err(_) => {
                            proof {
                                assert(false);
                            }
                        },
                    }
                }
            }
            StepModel::Continue
        },
        Instruction::ARRAYLENGTH => {
            let popped = pop_one(stack);
            match popped {
                Some(Value::Reference(id)) => {
                    if id.0 == 0 {
                        return StepModel::NullPointer;
                    }
                    match heap.resolve_object_by_id(id) {
                        Ok(object) => {
                            if object.is_array() {
                                let length = object.get_length() as i32;
                                push(stack, Value::Integer(length));
                                StepModel::Continue
                            } else {
                                StepModel::Invalid
                            }
                        },
                        Err(_) => {
                            proof {
                                assert(false);
                            }
                            StepModel::Invalid
                        },
                    }
                },
                _ => StepModel::Invalid,
            }
        },
        _ => {
            let ghost s = stack@;
            let value = pop(stack);
            let index = pop_int(stack);
            let popped = pop(stack);
            proof {
                assert(operand(s, 1) == Value::Integer(index));
                assert(popped == operand(s, 2));
                assert(stack@ =~~= popped_n(s, 3));
            }
            if let Value::Reference(id) = popped {
                if id.0 != 0 {
                    heap.set_element(id, index as usize, value);
                }
            }
            StepModel::Continue
        },
    }
}

fn element_exists_exec(heap: &Heap, array: Value, index: i32) -> (r: bool)
    requires
        heap.wf(),
    ensures
        r == element_exists(heap@, array, index as int),
{
    if let Value::Reference(id) = array {
        if id.0 != 0 {
            return match heap.resolve_object_by_id(id) {
                Ok(object) => object.is_array() && 0 <= index && (index as usize) < object.get_length(),
                Err(_) => false,
            };
        }
    }
    true
}

fn array_instruction_can_run(stack: &CallStack, heap: &Heap, instruction: &Instruction) -> (r: bool)
    requires
        stack@.len() > 0,
        heap.wf(),
        is_array_instruction(*instruction),
    ensures
        r == array_step_defined(stack@, heap@, *instruction),
{
    let count = stack.operand_count();
    match instruction {
        Instruction::IALOAD => {
            let index = match stack.peek_operand(0) {
                Some(Value::Integer(i)) => i,
                _ => {
                    proof {
                        if top_ints(stack@, 1) {
                            assert(operand(stack@, 0) is Integer);
                        }
                    }
                    return false;
                },
            };
            proof {
                assert(top_ints(stack@, 1)) by {
                    assert forall|k: int| 0 <= k < 1 implies (#[trigger] operand(stack@, k)) is Integer by {
                        assert(k == 0);
                    }
                }
            }
            if count < 2 {
                return true;
            }
            match stack.peek_operand(1) {
                Some(array) => element_exists_exec(heap, array, index),
                None => true,
            }
        },
        Instruction::ARRAYLENGTH => {
            if count < 1 {
                return true;
            }
            match stack.peek_operand(0) {
                Some(Value::Reference(id)) => {
                    if id.0 == 0 {
                        true
                    } else {
                        heap.resolve_object_by_id(id).is_ok()
                    }
                },
                _ => true,
            }
        },
        _ => {
            if count < 3 {
                return false;
            }
            match (stack.peek_operand(1), stack.peek_operand(2)) {
                (Some(Value::Integer(index)), Some(array)) => element_exists_exec(heap, array, index),
                _ => false,
            }
        },
    }
}

/// True when [`execute_current_block`] can run `block` on `stack` and `heap` after
/// moving to `next_pc`: the operands, local variables and array elements it takes are
/// there, and the operand stack has room for what it pushes.
pub fn can_execute_block(stack: &CallStack, heap: &Heap, block: &InstructionBlock, next_pc: Option<u16>) -> (r: bool)
    requires
        stack@.len() > 0,
        heap.wf(),
    ensures
        r == block_defined(advanced(stack@, next_pc), heap@, *block),
{
    proof {
        let t = advanced(stack@, next_pc);
        assert(t.len() == stack@.len());
        assert(ops(t) == ops(stack@));
        assert(locals(t) == locals(stack@));
        assert(t.last().max_stack == stack@.last().max_stack);
        assert(t.last().class_and_method == stack@.last().class_and_method);
        assert forall|k: int| #[trigger] operand(t, k) == operand(stack@, k) by {}
        assert forall|n: int| #[trigger] room(t, n) == room(stack@, n) by {}
        assert forall|i: int| #[trigger] has_local(t, i) == has_local(stack@, i) by {}
        assert forall|n: int| #[trigger] top_ints(t, n) == top_ints(stack@, n) by {
            if top_ints(t, n) {
                assert forall|k: int| 0 <= k < n implies (#[trigger] operand(stack@, k)) is Integer by {
                    assert(operand(t, k) is Integer);
                }
            }
            if top_ints(stack@, n) {
                assert forall|k: int| 0 <= k < n implies (#[trigger] operand(t, k)) is Integer by {
                    assert(operand(stack@, k) is Integer);
                }
            }
        }
        assert forall|i: int| #[trigger] ldc_defined(t, i) == ldc_defined(stack@, i) by {
            assert(frame_constant(t, i) == frame_constant(stack@, i));
        }
        assert(step_defined(t, *block) == step_defined(stack@, *block));
        assert forall|i: Instruction| #[trigger] array_step_defined(t, heap@, i) == array_step_defined(
            stack@,
            heap@,
            i,
        ) by {}
        assert(block_defined(t, heap@, *block) == block_defined(stack@, heap@, *block));
    }
    match block {
        InstructionBlock::Single(instruction) => {
            if is_array_op(instruction) {
                array_instruction_can_run(stack, heap, instruction)
            } else {
                instruction_can_run(stack, instruction)
            }
        },
        InstructionBlock::AStoreWithoutPop(index) => stack.operand_count() >= 1 && local_exists(stack, *index),
        _ => true,
    }
}

/// Runs the block at the innermost invocation's position: the invocation first moves
/// on to `next_pc`, the position of the block after it (none for the last block), then
/// the block acts on the operand stack, the local variables, the position and, for the
/// array instructions, the arrays on the heap. Blocks that need class loading, object
/// creation, static fields or a method call are handed back undone. A block whose
/// operands, local variables or array elements are missing makes the interpreter panic;
/// that is left out by the precondition.
pub fn execute_current_block<'a>(
    stack: &mut CallStack<'a>,
    heap: &mut Heap,
    block: &InstructionBlock,
    next_pc: Option<u16>,
) -> (r: BlockOutcome<'a>)
    requires
        old(stack)@.len() > 0,
        operands_fit(old(stack)@),
        old(heap).wf(),
        block_defined(advanced(old(stack)@, next_pc), old(heap)@, *block),
    ensures
        final(stack)@ == spec_block(advanced(old(stack)@, next_pc), old(heap)@, *block).0,
        outcome_is(r, spec_block(advanced(old(stack)@, next_pc), old(heap)@, *block).1),
        heap_effect(advanced(old(stack)@, next_pc), old(heap)@, final(heap)@, *block),
        final(heap).wf(),
        operands_fit(final(stack)@),
        same_outer(old(stack)@, final(stack)@),
{
    if let Some(pc) = next_pc {
        jump(stack, pc);
    }
    let model = match block {
        InstructionBlock::Single(instruction) => {
            if is_array_op(instruction) {
                run_array_instruction(stack, heap, instruction)
            } else {
                run_instruction(stack, instruction)
            }
        },
        InstructionBlock::AStoreWithoutPop(index) => {
            let top = match stack.top_operand() {
                Some(v) => v,
                None => {
                    proof {
                        assert(false);
                    }
                    Value::Uninitialized
                },
            };
            put_local(stack, top, *index);
            StepModel::Continue
        },
        _ => StepModel::NotExecutable,
    };
    let outcome = match model {
        StepModel::Continue => BlockOutcome::Continue,
        StepModel::Return(v) => BlockOutcome::Finished(Ok(VMResultType::Success(v))),
        StepModel::Invalid => BlockOutcome::Finished(
            Err(VmError::ValidationError("the operands or locals do not fit the instruction".to_string())),
        ),
        StepModel::NotExecutable => BlockOutcome::Finished(
            Err(VmError::Unspecified("the block is not executable".to_string())),
        ),
        StepModel::NullPointer => BlockOutcome::Finished(
            Err(VmError::JavaException(JavaError::NullPointerException("Expected an array".to_string()))),
        ),
        StepModel::NeedsMachine => BlockOutcome::NeedsMachine,
    };
    outcome
}

/// The fused block that stores the top operand in a local and keeps it on the operand
/// stack does what storing it there (`ASTORE`) and loading it back (`ALOAD`) does, when
/// that operand is a reference.
pub proof fn law_store_without_pop_is_store_then_load<'a>(s: Seq<FrameView<'a>>, index: u8)
    requires
        s.len() > 0,
        ops(s).len() >= 1,
        ops(s).len() <= s.last().max_stack,
        has_local(s, index as int),
        operand(s, 0) is Reference,
    ensures
        step_defined(s, InstructionBlock::Single(Instruction::ASTORE(index))),
        spec_step(s, InstructionBlock::Single(Instruction::ASTORE(index))).1 == StepModel::Continue,
        step_defined(
            spec_step(s, InstructionBlock::Single(Instruction::ASTORE(index))).0,
            InstructionBlock::Single(Instruction::ALOAD(index)),
        ),
        step_defined(s, InstructionBlock::AStoreWithoutPop(index as usize)),
        spec_step(
            spec_step(s, InstructionBlock::Single(Instruction::ASTORE(index))).0,
            InstructionBlock::Single(Instruction::ALOAD(index)),
        ) == spec_step(s, InstructionBlock::AStoreWithoutPop(index as usize)),
{
    let v = operand(s, 0);
    let s1 = spec_step(s, InstructionBlock::Single(Instruction::ASTORE(index))).0;
    let s2 = spec_step(s1, InstructionBlock::Single(Instruction::ALOAD(index))).0;
    let fused = spec_step(s, InstructionBlock::AStoreWithoutPop(index as usize)).0;
    assert(locals(s1)[index as int] == v);
    assert(ops(s1) =~= ops(s).drop_last());
    assert(ops(s2) =~= ops(s));
    assert(s2.last() =~= fused.last());
    assert(s2 =~= fused);
}

/// The int whose two's complement has the same low 32 bits as `x`: the int that Java's
/// wrapping arithmetic gives for the exact result `x`.
pub open spec fn low_32_bits(x: int) -> i32 {
    let m = x % 0x1_0000_0000;
    if m > i32::MAX {
        (m - 0x1_0000_0000) as i32
    } else {
        m as i32
    }
}

/// [`low_32_bits`] keeps an int as it is, and differs from `x` by a multiple of 2^32.
pub proof fn law_low_32_bits(x: int, v: i32)
    ensures
        low_32_bits(v as int) == v,
        (low_32_bits(x) - x) % 0x1_0000_0000 == 0,
{
}

/// The int instructions take the two topmost operands, `a` below `b`, and push the int
/// that Java defines: `IXOR` the bitwise exclusive or `a ^ b`, `IOR` the bitwise or
/// `a | b`, `IADD` and `IMUL` the sum and product cut to 32 bits, and `ISHL` `a` shifted
/// left by the low five bits of `b`, cut to 32 bits.
pub proof fn law_int_instructions<'a>(s: Seq<FrameView<'a>>, h: Map<RefId, ReferenceValue>, a: i32, b: i32)
    requires
        s.len() > 0,
        ops(s).len() >= 2,
        operand(s, 1) == Value::Integer(a),
        operand(s, 0) == Value::Integer(b),
    ensures
        spec_block(s, h, InstructionBlock::Single(Instruction::IXOR)) == (
            with_operand_pushed(popped_n(s, 2), Value::Integer(a ^ b)),
            StepModel::Continue,
        ),
        spec_block(s, h, InstructionBlock::Single(Instruction::IOR)) == (
            with_operand_pushed(popped_n(s, 2), Value::Integer(a | b)),
            StepModel::Continue,
        ),
        spec_block(s, h, InstructionBlock::Single(Instruction::IADD)) == (
            with_operand_pushed(popped_n(s, 2), Value::Integer(low_32_bits(a + b))),
            StepModel::Continue,
        ),
        spec_block(s, h, InstructionBlock::Single(Instruction::IMUL)) == (
            with_operand_pushed(popped_n(s, 2), Value::Integer(low_32_bits(a * b))),
            StepModel::Continue,
        ),
        spec_block(s, h, InstructionBlock::Single(Instruction::ISHL)) == (
            with_operand_pushed(popped_n(s, 2), Value::Integer(a << ((b & 0x1f) as u32))),
            StepModel::Continue,
        ),
{
    let sum = a + b;
    if sum > i32::MAX {
        assert(sum % 0x1_0000_0000 == sum);
    } else if sum < i32::MIN {
        assert(sum % 0x1_0000_0000 == sum + 0x1_0000_0000);
    } else if sum < 0 {
        assert(sum % 0x1_0000_0000 == sum + 0x1_0000_0000);
    } else {
        assert(sum % 0x1_0000_0000 == sum);
    }
    assert(a.wrapping_add(b) == low_32_bits(a + b));
    assert(a.wrapping_mul(b) == low_32_bits(a * b));
    let shift = (b & 0x1f) as u32;
    assert(shift % 32 == shift) by (bit_vector)
        requires
            shift == (b & 0x1f) as u32,
    ;
    assert(a.wrapping_shl(shift) == a << shift);
}

/// The two-int branches take the two topmost operands, `a` below `b`, and jump to their
/// target exactly when `a` and `b` stand in their relation: `IF_ICMPEQ` when equal,
/// `IF_ICMPNE` when different, `IF_ICMPLT` when `a < b`, `IF_ICMPGE` when `a >= b`,
/// `IF_ICMPGT` when `a > b` and `IF_ICMPLE` when `a <= b`; otherwise they go on with the
/// next block. Either way both operands are gone.
pub proof fn law_int_branches<'a>(s: Seq<FrameView<'a>>, h: Map<RefId, ReferenceValue>, a: i32, b: i32, t: u16)
    requires
        s.len() > 0,
        ops(s).len() >= 2,
        operand(s, 1) == Value::Integer(a),
        operand(s, 0) == Value::Integer(b),
    ensures
        spec_block(s, h, InstructionBlock::Single(Instruction::IF_ICMPEQ(t))) == (
            if a == b {
                with_pc(popped_n(s, 2), t)
            } else {
                popped_n(s, 2)
            },
            StepModel::Continue,
        ),
        spec_block(s, h, InstructionBlock::Single(Instruction::IF_ICMPNE(t))) == (
            if a != b {
                with_pc(popped_n(s, 2), t)
            } else {
                popped_n(s, 2)
            },
            StepModel::Continue,
        ),
        spec_block(s, h, InstructionBlock::Single(Instruction::IF_ICMPLT(t))) == (
            if a < b {
                with_pc(popped_n(s, 2), t)
            } else {
                popped_n(s, 2)
            },
            StepModel::Continue,
        ),
        spec_block(s, h, InstructionBlock::Single(Instruction::IF_ICMPGE(t))) == (
            if a >= b {
                with_pc(popped_n(s, 2), t)
            } else {
                popped_n(s, 2)
            },
            StepModel::Continue,
        ),
        spec_block(s, h, InstructionBlock::Single(Instruction::IF_ICMPGT(t))) == (
            if a > b {
                with_pc(popped_n(s, 2), t)
            } else {
                popped_n(s, 2)
            },
            StepModel::Continue,
        ),
        spec_block(s, h, InstructionBlock::Single(Instruction::IF_ICMPLE(t))) == (
            if a <= b {
                with_pc(popped_n(s, 2), t)
            } else {
                popped_n(s, 2)
            },
            StepModel::Continue,
        ),
{
}

/// `IUSHR` shifts the bits of `a` right by the low five bits of `b`, filling with zeros:
/// the result is the unsigned right shift of `a`'s 32 bits.
pub proof fn law_unsigned_shift<'a>(s: Seq<FrameView<'a>>, h: Map<RefId, ReferenceValue>, a: i32, b: i32)
    requires
        s.len() > 0,
        ops(s).len() >= 2,
        operand(s, 1) == Value::Integer(a),
        operand(s, 0) == Value::Integer(b),
    ensures
        spec_block(s, h, InstructionBlock::Single(Instruction::IUSHR)) == (
            with_operand_pushed(popped_n(s, 2), Value::Integer(((a as u32) >> ((b & 0x1f) as u32)) as i32)),
            StepModel::Continue,
        ),
{
    let shift = (b & 0x1f) as u32;
    assert(shift < 32) by (bit_vector)
        requires
            shift == (b & 0x1f) as u32,
    ;
    assert(shift % 32 == shift);
    if a > 0 {
        assert(a >> shift == ((a as u32) >> shift) as i32) by (bit_vector)
            requires
                a > 0,
                shift < 32,
        ;
        assert(a.wrapping_shr(shift) == a >> shift);
    }
}

/// Storing the top int in a local and loading that local again gives back the operand
/// stack as it was, with the int now also in the local: `ISTORE i` then `ILOAD i`, and the
/// same for references with `ASTORE i` then `ALOAD i`. The other locals keep their values.
pub proof fn law_store_then_load<'a>(s: Seq<FrameView<'a>>, h: Map<RefId, ReferenceValue>, i: u8, v: Value)
    requires
        s.len() > 0,
        ops(s).len() >= 1,
        operand(s, 0) == v,
        has_local(s, i as int),
    ensures
        v is Integer ==> ({
            let s1 = spec_block(s, h, InstructionBlock::Single(Instruction::ISTORE(i)));
            let s2 = spec_block(s1.0, h, InstructionBlock::Single(Instruction::ILOAD(i)));
            &&& s1.1 == StepModel::Continue
            &&& s2.1 == StepModel::Continue
            &&& ops(s2.0) == ops(s)
            &&& locals(s2.0) == locals(s).update(i as int, v)
        }),
        v is Reference ==> ({
            let s1 = spec_block(s, h, InstructionBlock::Single(Instruction::ASTORE(i)));
            let s2 = spec_block(s1.0, h, InstructionBlock::Single(Instruction::ALOAD(i)));
            &&& s1.1 == StepModel::Continue
            &&& s2.1 == StepModel::Continue
            &&& ops(s2.0) == ops(s)
            &&& locals(s2.0) == locals(s).update(i as int, v)
        }),
{
    let s1 = with_local_stored(with_operand_popped(s), v, i as int);
    assert(ops(s1) =~= ops(s).drop_last());
    assert(locals(s1) =~= locals(s).update(i as int, v));
    assert(ops(with_operand_pushed(s1, v)) =~= ops(s));
}

/// `LDC` of a numeric constant pushes the value that the class's constant pool holds at
/// that index: an int as an int, a long as a long, a float or double by its bits.
pub proof fn law_ldc_pushes_the_constant<'a>(s: Seq<FrameView<'a>>, h: Map<RefId, ReferenceValue>, index: u8)
    requires
        s.len() > 0,
    ensures
        frame_constant(s, index as int) matches Some(ConstantPoolEntry::Integer(v)) ==> spec_block(
            s,
            h,
            InstructionBlock::Single(Instruction::LDC(index)),
        ) == (with_operand_pushed(s, Value::Integer(v)), StepModel::Continue),
        frame_constant(s, index as int) matches Some(ConstantPoolEntry::Long(v)) ==> spec_block(
            s,
            h,
            InstructionBlock::Single(Instruction::LDC(index)),
        ) == (with_operand_pushed(s, Value::Long(v)), StepModel::Continue),
        frame_constant(s, index as int) matches Some(ConstantPoolEntry::Float(v)) ==> spec_block(
            s,
            h,
            InstructionBlock::Single(Instruction::LDC(index)),
        ) == (with_operand_pushed(s, Value::Float(v)), StepModel::Continue),
        frame_constant(s, index as int) matches Some(ConstantPoolEntry::Double(v)) ==> spec_block(
            s,
            h,
            InstructionBlock::Single(Instruction::LDC(index)),
        ) == (with_operand_pushed(s, Value::Double(v)), StepModel::Continue),
{
}

/// `IINC i n` adds `n` to the int in the local `i` (where the sum fits in an int) and
/// leaves the operand stack alone.
pub proof fn law_iinc_adds<'a>(s: Seq<FrameView<'a>>, h: Map<RefId, ReferenceValue>, i: u8, n: i8, x: i32)
    requires
        s.len() > 0,
        has_local(s, i as int),
        locals(s)[i as int] == Value::Integer(x),
        i32::MIN <= x + n <= i32::MAX,
    ensures
        ({
            let r = spec_block(s, h, InstructionBlock::Single(Instruction::IINC(i, n)));
            &&& r.1 == StepModel::Continue
            &&& ops(r.0) == ops(s)
            &&& locals(r.0) == locals(s).update(i as int, Value::Integer((x + n) as i32))
            &&& (x + n) as i32 == x + n
        }),
{
    let r = with_local_stored(s, Value::Integer((x + n) as i32), i as int);
    assert(locals(r) =~= locals(s).update(i as int, Value::Integer((x + n) as i32)));
}

/// An element stored by `IASTORE` is what `IALOAD` then loads from the same array and
/// index, and the array keeps its length.
pub proof fn law_array_store_then_load<'a>(
    s: Seq<FrameView<'a>>,
    t: Seq<FrameView<'a>>,
    h: Map<RefId, ReferenceValue>,
    h2: Map<RefId, ReferenceValue>,
    array: RefId,
    index: i32,
    v: Value,
)
    requires
        s.len() > 0,
        ops(s).len() >= 3,
        operand(s, 2) == Value::Reference(array),
        array.0 != 0,
        operand(s, 1) == Value::Integer(index),
        operand(s, 0) == v,
        h.contains_key(array),
        0 <= index < h[array].components().len(),
        heap_effect(s, h, h2, InstructionBlock::Single(Instruction::IASTORE)),
        t.len() > 0,
        ops(t).len() >= 2,
        operand(t, 1) == Value::Reference(array),
        operand(t, 0) == Value::Integer(index),
    ensures
        spec_block(s, h, InstructionBlock::Single(Instruction::IASTORE)) == (popped_n(s, 3), StepModel::Continue),
        spec_block(t, h2, InstructionBlock::Single(Instruction::IALOAD)) == (
            with_operand_pushed(popped_n(t, 2), v),
            StepModel::Continue,
        ),
        h2[array].components().len() == h[array].components().len(),
{
    crate::vm::value::law_written_component_reads_back(h[array], h2[array], index as int, v);
}

/// Exclusive or is not or: `IXOR` of an int with itself pushes 0, and where two ints share
/// a set bit, `IXOR` and `IOR` of them push different ints.
pub proof fn law_xor_differs_from_or<'a>(s: Seq<FrameView<'a>>, h: Map<RefId, ReferenceValue>, a: i32, b: i32)
    requires
        s.len() > 0,
        ops(s).len() >= 2,
        operand(s, 1) == Value::Integer(a),
        operand(s, 0) == Value::Integer(b),
    ensures
        a == b ==> spec_block(s, h, InstructionBlock::Single(Instruction::IXOR)).0 == with_operand_pushed(
            popped_n(s, 2),
            Value::Integer(0),
        ),
        a & b != 0 ==> spec_block(s, h, InstructionBlock::Single(Instruction::IXOR)).0 != spec_block(
            s,
            h,
            InstructionBlock::Single(Instruction::IOR),
        ).0,
{
    law_int_instructions(s, h, a, b);
    assert(a == b ==> a ^ b == 0) by (bit_vector);
    assert(a & b != 0 ==> a ^ b != a | b) by (bit_vector);
    if a & b != 0 {
        let x = with_operand_pushed(popped_n(s, 2), Value::Integer(a ^ b));
        let y = with_operand_pushed(popped_n(s, 2), Value::Integer(a | b));
        assert(x.last().operands.last() != y.last().operands.last());
    }
}

} // verus!
