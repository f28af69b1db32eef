use rjvm::access_flags::{ClassFlag, MethodFlag};
use rjvm::attribute::{Code, ExceptionTable, ProgramCounter};
use rjvm::bytecode::Instruction;
use rjvm::constants::{ConstantPool, ConstantPoolEntry};
use rjvm::method_info::{MethodDescriptor, MethodInfo};
use rjvm::vm::bytecode::InstructionBlock;
use rjvm::vm::callstack::CallStack;
use rjvm::vm::class::{Class, ClassAndMethod, ClassId};
use rjvm::vm::executor::{can_execute_block, execute_current_block, BlockOutcome};
use rjvm::vm::heap::Heap;
use rjvm::vm::value::ReferenceValue;
use rjvm::field_info::{FieldType, PrimitiveType};
use rjvm::vm::java_error::JavaError;
use rjvm::vm::result::VMResultType;
use rjvm::vm::value::{RefId, Value};
use rjvm::vm::VmError;

fn class() -> Class<'static> {
    Class {
        id: ClassId(1),
        name: "Calc".to_string(),
        source_file: None,
        constants: ConstantPool(vec![
            ConstantPoolEntry::Integer(1000),
            ConstantPoolEntry::Utf8("hi".to_string()),
            ConstantPoolEntry::String(2),
            ConstantPoolEntry::Long(1 << 40),
            ConstantPoolEntry::Dummy,
        ]),
        flags: vec![ClassFlag::Public],
        superclass: None,
        interfaces: vec![],
        fields: vec![],
        methods: vec![MethodInfo {
            flags: vec![MethodFlag::Static],
            name: "run".to_string(),
            descriptor: MethodDescriptor::new("()I".to_string()),
            deprecated: false,
            code: Some(Code {
                max_stack: 4,
                max_locals: 3,
                code: vec![],
                attributes: vec![],
                line_number_table: None,
                exception_table: ExceptionTable(vec![]),
            }),
            exceptions: None,
            attributes: vec![],
        }],
        transitive_field_count: 0,
        first_field_index: 0,
        array_info: None,
    }
}

fn single(i: Instruction) -> InstructionBlock {
    InstructionBlock::Single(i)
}

fn run<'a>(stack: &mut CallStack<'a>, i: Instruction) -> BlockOutcome<'a> {
    let mut heap = Heap::new();
    run_on(stack, &mut heap, i)
}

fn run_on<'a>(stack: &mut CallStack<'a>, heap: &mut Heap, i: Instruction) -> BlockOutcome<'a> {
    let pc = stack.get_pc().0;
    let block = single(i);
    assert!(can_execute_block(stack, heap, &block, Some(pc + 1)));
    execute_current_block(stack, heap, &block, Some(pc + 1))
}

fn continued(o: &BlockOutcome) -> bool {
    matches!(o, BlockOutcome::Continue)
}

#[test]
fn constants_and_integer_arithmetic() {
    let c = class();
    let mut stack = CallStack::new();
    stack.create_and_push_call_frame(ClassAndMethod { class: &c, method: &c.methods[0] }, None, vec![], true);
    assert!(continued(&run(&mut stack, Instruction::ICONST2)));
    assert!(continued(&run(&mut stack, Instruction::ICONST3)));
    assert!(continued(&run(&mut stack, Instruction::IADD)));
    assert!(continued(&run(&mut stack, Instruction::BIPUSH(4))));
    assert!(continued(&run(&mut stack, Instruction::IMUL)));
    assert_eq!(stack.get_pc(), ProgramCounter(5));
    match run(&mut stack, Instruction::IRETURN) {
        BlockOutcome::Finished(Ok(VMResultType::Success(v))) => assert_eq!(v, Some(Value::Integer(20))),
        _ => panic!("expected a return"),
    }
}

#[test]
fn arithmetic_wraps_and_shifts_mask_the_distance() {
    let c = class();
    let mut stack = CallStack::new();
    stack.create_and_push_call_frame(ClassAndMethod { class: &c, method: &c.methods[0] }, None, vec![], true);
    run(&mut stack, Instruction::LDC(1));
    run(&mut stack, Instruction::SIPUSH(33));
    run(&mut stack, Instruction::ISHL);
    assert_eq!(stack.pop_operand_value(), Some(Value::Integer(2000)));
    stack.push_operand_value(Value::Integer(-8));
    stack.push_operand_value(Value::Integer(1));
    run(&mut stack, Instruction::IUSHR);
    assert_eq!(stack.pop_operand_value(), Some(Value::Integer(0x7FFF_FFFC)));
    stack.push_operand_value(Value::Integer(i32::MAX));
    stack.push_operand_value(Value::Integer(1));
    run(&mut stack, Instruction::IADD);
    assert_eq!(stack.pop_operand_value(), Some(Value::Integer(i32::MIN)));
    stack.push_operand_value(Value::Long(-1));
    stack.push_operand_value(Value::Integer(60));
    run(&mut stack, Instruction::LUSHR);
    assert_eq!(stack.pop_operand_value(), Some(Value::Long((u64::MAX >> 28) as i64)));
}

#[test]
fn bipush_takes_the_operand_as_unsigned() {
    let c = class();
    let mut stack = CallStack::new();
    stack.create_and_push_call_frame(ClassAndMethod { class: &c, method: &c.methods[0] }, None, vec![], true);
    run(&mut stack, Instruction::BIPUSH(200));
    assert_eq!(stack.pop_operand_value(), Some(Value::Integer(200)));
}

#[test]
fn branches_jump_to_absolute_targets() {
    let c = class();
    let mut stack = CallStack::new();
    stack.create_and_push_call_frame(ClassAndMethod { class: &c, method: &c.methods[0] }, None, vec![], true);
    run(&mut stack, Instruction::ICONST1);
    run(&mut stack, Instruction::ICONST2);
    assert!(continued(&run(&mut stack, Instruction::IF_ICMPLT(40))));
    assert_eq!(stack.get_pc(), ProgramCounter(40));
    run(&mut stack, Instruction::ICONST1);
    run(&mut stack, Instruction::ICONST2);
    run(&mut stack, Instruction::IF_ICMPGE(7));
    assert_eq!(stack.get_pc(), ProgramCounter(43));
    run(&mut stack, Instruction::ICONST0);
    run(&mut stack, Instruction::IFNE(9));
    assert_eq!(stack.get_pc(), ProgramCounter(45));
    run(&mut stack, Instruction::GOTO(2));
    assert_eq!(stack.get_pc(), ProgramCounter(2));
    run(&mut stack, Instruction::ACONST_NULL);
    run(&mut stack, Instruction::IFNONNULL(50));
    assert_eq!(stack.get_pc(), ProgramCounter(4));
}

#[test]
fn locals_store_load_and_increment() {
    let c = class();
    let mut stack = CallStack::new();
    stack.create_and_push_call_frame(ClassAndMethod { class: &c, method: &c.methods[0] }, None, vec![], true);
    run(&mut stack, Instruction::BIPUSH(7));
    run(&mut stack, Instruction::ISTORE(2));
    run(&mut stack, Instruction::IINC(2, -3));
    run(&mut stack, Instruction::ILOAD(2));
    assert_eq!(stack.pop_operand_value(), Some(Value::Integer(4)));
    stack.push_operand_value(Value::Long(9));
    run(&mut stack, Instruction::LSTORE0);
    assert_eq!(stack.load_local(1), Some(Value::Dummy));
    run(&mut stack, Instruction::LLOAD0);
    run(&mut stack, Instruction::L2I);
    assert_eq!(stack.pop_operand_value(), Some(Value::Integer(9)));
    stack.push_operand_value(Value::Integer(5));
    run(&mut stack, Instruction::DUP);
    assert_eq!(stack.pop_operand_value(), Some(Value::Integer(5)));
    assert_eq!(stack.pop_operand_value(), Some(Value::Integer(5)));
}

#[test]
fn loading_the_wrong_kind_is_invalid() {
    let c = class();
    let mut stack = CallStack::new();
    stack.create_and_push_call_frame(ClassAndMethod { class: &c, method: &c.methods[0] }, None, vec![], true);
    assert!(matches!(
        run(&mut stack, Instruction::ILOAD(1)),
        BlockOutcome::Finished(Err(VmError::ValidationError(_)))
    ));
    stack.push_operand_value(Value::Long(1));
    stack.push_operand_value(Value::Integer(1));
    assert!(matches!(
        run(&mut stack, Instruction::IADD),
        BlockOutcome::Finished(Err(VmError::ValidationError(_)))
    ));
    // both operands are gone even though the addition failed
    assert_eq!(stack.pop_operand_value(), None);
}

#[test]
fn heap_instructions_are_handed_back() {
    let c = class();
    let mut stack = CallStack::new();
    stack.create_and_push_call_frame(ClassAndMethod { class: &c, method: &c.methods[0] }, None, vec![], true);
    assert!(matches!(run(&mut stack, Instruction::NEW(3)), BlockOutcome::NeedsMachine));
    assert!(matches!(run(&mut stack, Instruction::GETSTATIC(1)), BlockOutcome::NeedsMachine));
    assert!(matches!(run(&mut stack, Instruction::LDC(3)), BlockOutcome::NeedsMachine));
    assert!(matches!(run(&mut stack, Instruction::INVOKESTATIC(1)), BlockOutcome::NeedsMachine));
    assert_eq!(stack.get_pc(), ProgramCounter(4));
    assert_eq!(stack.pop_operand_value(), None);
    assert!(continued(&run(&mut stack, Instruction::LDC2W(4))));
    assert_eq!(stack.pop_operand_value(), Some(Value::Long(1 << 40)));
}

#[test]
fn other_blocks_are_not_executable() {
    let c = class();
    let mut stack = CallStack::new();
    stack.create_and_push_call_frame(ClassAndMethod { class: &c, method: &c.methods[0] }, None, vec![], true);
    assert!(matches!(
        run(&mut stack, Instruction::NOP),
        BlockOutcome::Finished(Err(VmError::Unspecified(_)))
    ));
    assert!(matches!(
        execute_current_block(&mut stack, &mut Heap::new(), &InstructionBlock::IConstReturn(1), None),
        BlockOutcome::Finished(Err(VmError::Unspecified(_)))
    ));
    match execute_current_block(&mut stack, &mut Heap::new(), &single(Instruction::RETURN), None) {
        BlockOutcome::Finished(Ok(VMResultType::Success(v))) => assert_eq!(v, None),
        _ => panic!("expected a return"),
    }
}

#[test]
fn store_without_pop_keeps_the_operand() {
    let c = class();
    let mut stack = CallStack::new();
    stack.create_and_push_call_frame(ClassAndMethod { class: &c, method: &c.methods[0] }, None, vec![], true);
    stack.push_operand_value(Value::Reference(RefId(3)));
    assert!(continued(&execute_current_block(&mut stack, &mut Heap::new(), &InstructionBlock::AStoreWithoutPop(1), None)));
    assert_eq!(stack.load_local(1), Some(Value::Reference(RefId(3))));
    assert_eq!(stack.top_operand(), Some(Value::Reference(RefId(3))));
}

#[test]
fn store_without_pop_is_a_store_then_a_load() {
    let c = class();
    let mut fused = CallStack::new();
    fused.create_and_push_call_frame(ClassAndMethod { class: &c, method: &c.methods[0] }, None, vec![], true);
    fused.push_operand_value(Value::Integer(7));
    fused.push_operand_value(Value::Reference(RefId(3)));
    let mut stepwise = CallStack::new();
    stepwise.create_and_push_call_frame(ClassAndMethod { class: &c, method: &c.methods[0] }, None, vec![], true);
    stepwise.push_operand_value(Value::Integer(7));
    stepwise.push_operand_value(Value::Reference(RefId(3)));
    assert!(continued(&execute_current_block(&mut fused, &mut Heap::new(), &InstructionBlock::AStoreWithoutPop(2), None)));
    assert!(continued(&execute_current_block(&mut stepwise, &mut Heap::new(), &single(Instruction::ASTORE(2)), None)));
    assert!(continued(&execute_current_block(&mut stepwise, &mut Heap::new(), &single(Instruction::ALOAD(2)), None)));
    assert_eq!(fused.operand_count(), stepwise.operand_count());
    for k in 0..fused.operand_count() {
        assert_eq!(fused.peek_operand(k), stepwise.peek_operand(k));
    }
    for i in 0..3 {
        assert_eq!(fused.load_local(i), stepwise.load_local(i));
    }
}

fn int_array(id: u32, content: Vec<i32>) -> ReferenceValue {
    ReferenceValue::new_array(
        RefId(id),
        ClassId(9),
        "[I".to_string(),
        1,
        FieldType::Primitive(PrimitiveType::Integer),
        content.into_iter().map(Value::Integer).collect(),
    )
}

#[test]
fn array_elements_are_loaded_and_stored_through_the_heap() {
    let c = class();
    let mut stack = CallStack::new();
    stack.create_and_push_call_frame(ClassAndMethod { class: &c, method: &c.methods[0] }, None, vec![], true);
    let mut heap = Heap::new();
    heap.insert(int_array(5, vec![10, 20, 30]));
    stack.push_operand_value(Value::Reference(RefId(5)));
    stack.push_operand_value(Value::Integer(1));
    stack.push_operand_value(Value::Integer(99));
    assert!(continued(&run_on(&mut stack, &mut heap, Instruction::IASTORE)));
    assert_eq!(heap.resolve_object_by_id(RefId(5)).unwrap().get_element(1), Value::Integer(99));
    stack.push_operand_value(Value::Reference(RefId(5)));
    stack.push_operand_value(Value::Integer(2));
    assert!(continued(&run_on(&mut stack, &mut heap, Instruction::IALOAD)));
    assert_eq!(stack.pop_operand_value(), Some(Value::Integer(30)));
    stack.push_operand_value(Value::Reference(RefId(5)));
    assert!(continued(&run_on(&mut stack, &mut heap, Instruction::ARRAYLENGTH)));
    assert_eq!(stack.pop_operand_value(), Some(Value::Integer(3)));
}

#[test]
fn array_instructions_on_null() {
    let c = class();
    let mut stack = CallStack::new();
    stack.create_and_push_call_frame(ClassAndMethod { class: &c, method: &c.methods[0] }, None, vec![], true);
    let mut heap = Heap::new();
    stack.push_operand_value(Value::Reference(RefId(0)));
    match run_on(&mut stack, &mut heap, Instruction::ARRAYLENGTH) {
        BlockOutcome::Finished(Err(VmError::JavaException(JavaError::NullPointerException(_)))) => {}
        _ => panic!("expected a null pointer exception"),
    }
    // loading from null pushes nothing
    stack.push_operand_value(Value::Reference(RefId(0)));
    stack.push_operand_value(Value::Integer(0));
    assert!(continued(&run_on(&mut stack, &mut heap, Instruction::IALOAD)));
    assert_eq!(stack.pop_operand_value(), None);
    stack.push_operand_value(Value::Integer(4));
    assert!(matches!(
        run_on(&mut stack, &mut heap, Instruction::ARRAYLENGTH),
        BlockOutcome::Finished(Err(VmError::ValidationError(_)))
    ));
}

#[test]
fn out_of_range_elements_cannot_run() {
    let c = class();
    let mut stack = CallStack::new();
    stack.create_and_push_call_frame(ClassAndMethod { class: &c, method: &c.methods[0] }, None, vec![], true);
    let mut heap = Heap::new();
    heap.insert(int_array(5, vec![1]));
    stack.push_operand_value(Value::Reference(RefId(5)));
    stack.push_operand_value(Value::Integer(3));
    assert!(!can_execute_block(&stack, &heap, &single(Instruction::IALOAD), None));
    stack.push_operand_value(Value::Integer(7));
    assert!(!can_execute_block(&stack, &heap, &single(Instruction::IASTORE), None));
    // a length of something that is no reference is refused at run time, not before
    assert!(can_execute_block(&stack, &heap, &single(Instruction::ARRAYLENGTH), None));
    assert!(can_execute_block(&stack, &heap, &single(Instruction::IRETURN), None));
}
