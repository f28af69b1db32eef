use rjvm::access_flags::MethodFlag;
use rjvm::attribute::{Code, ExceptionTable, ExceptionTableEntry, ProgramCounter};
use rjvm::constants::{ConstantPool, ConstantPoolEntry};
use rjvm::field_info::{FieldType, PrimitiveType};
use rjvm::method_info::{MethodDescriptor, MethodInfo};
use rjvm::field_info::FieldInfo;
use rjvm::vm::allocation::{allocate_array, allocate_object, newarray_type};
use rjvm::vm::callstack::CallStack;
use rjvm::vm::class::{Class, ClassAndMethod, ClassId};
use rjvm::vm::debug::printable::{components_printable, Printable};
use rjvm::vm::class_manager::returner_class;
use rjvm::vm::machine::Machine;
use rjvm::vm::run_loop::{after_step, Invocation, NextAction, StepEvent};
use rjvm::vm::heap::Heap;
use rjvm::vm::invoke::{dispatch_method, plan_invoke, take_arguments, InvokeKind};
use rjvm::vm::native::java_io::read_bytes_step;
use rjvm::vm::native::registry::{
    count_arguments, find_native, invoke_native, invoke_registered, MachineNative, NativeCall, NativeMethod,
};
use rjvm::vm::unsafe_memory::Unsafe;
use rjvm::vm::value::{RefId, ReferenceValue, Value};
use rjvm::vm::java_error::JavaError;
use rjvm::vm::VmError;

fn code(max_stack: u16, max_locals: u16) -> Code {
    Code {
        max_stack,
        max_locals,
        code: vec![],
        attributes: vec![],
        line_number_table: None,
        exception_table: ExceptionTable(vec![]),
    }
}

fn method(name: &str, descriptor: &str, flags: Vec<MethodFlag>, code: Option<Code>) -> MethodInfo {
    MethodInfo {
        flags,
        name: name.to_string(),
        descriptor: MethodDescriptor::new(descriptor.to_string()),
        deprecated: false,
        code,
        exceptions: None,
        attributes: vec![],
    }
}

fn class<'a>(id: u32, name: &str, superclass: Option<&'a Class<'a>>, constants: Vec<ConstantPoolEntry>, methods: Vec<MethodInfo>) -> Class<'a> {
    Class {
        id: ClassId(id),
        name: name.to_string(),
        source_file: None,
        constants: ConstantPool(constants),
        flags: vec![],
        superclass,
        interfaces: vec![],
        fields: vec![],
        methods,
        transitive_field_count: 0,
        first_field_index: 0,
        array_info: None,
    }
}

fn base() -> Class<'static> {
    class(
        1,
        "Base",
        None,
        vec![],
        vec![
            method("run", "(I)V", vec![MethodFlag::Public], Some(code(2, 2))),
            method("count", "(J)I", vec![MethodFlag::Static], Some(code(2, 2))),
        ],
    )
}

fn caller() -> Class<'static> {
    class(
        2,
        "Caller",
        None,
        vec![
            ConstantPoolEntry::Utf8("Base".to_string()),
            ConstantPoolEntry::Class(1),
            ConstantPoolEntry::Utf8("run".to_string()),
            ConstantPoolEntry::Utf8("(I)V".to_string()),
            ConstantPoolEntry::NameAndType(3, 4),
            ConstantPoolEntry::Methodref(2, 5),
            ConstantPoolEntry::Utf8("count".to_string()),
            ConstantPoolEntry::Utf8("(J)I".to_string()),
            ConstantPoolEntry::NameAndType(7, 8),
            ConstantPoolEntry::Methodref(2, 9),
            ConstantPoolEntry::Utf8("missing".to_string()),
            ConstantPoolEntry::NameAndType(11, 4),
            ConstantPoolEntry::Methodref(2, 12),
        ],
        vec![method("main", "()V", vec![MethodFlag::Static], Some(code(4, 1)))],
    )
}

#[test]
fn invokes_are_planned_from_the_method_reference() {
    let base = base();
    let caller = caller();
    let cam = ClassAndMethod { class: &caller, method: &caller.methods[0] };

    let run = plan_invoke(&cam, 6, InvokeKind::Virtual, &base).unwrap();
    assert_eq!(run.method.format(), "Base.run(I)V");
    assert_eq!(run.args_count, 1);
    assert!(run.takes_receiver);
    assert!(run.dispatches);

    let special = plan_invoke(&cam, 6, InvokeKind::Special, &base).unwrap();
    assert!(special.takes_receiver);
    assert!(!special.dispatches);

    let count = plan_invoke(&cam, 10, InvokeKind::Static, &base).unwrap();
    assert_eq!(count.method.format(), "Base.count(J)I");
    assert_eq!(count.args_count, 1);
    assert!(!count.takes_receiver);
    assert!(!count.dispatches);

    match plan_invoke(&cam, 13, InvokeKind::Virtual, &base) {
        Err(VmError::JavaException(JavaError::MethodNotFoundException(message))) => {
            assert_eq!(message, "missing(I)V in Base");
        }
        _ => panic!("a missing method is not found"),
    }
}

#[test]
fn arguments_and_receiver_come_off_the_operand_stack() {
    let base = base();
    let caller = caller();
    let cam = ClassAndMethod { class: &caller, method: &caller.methods[0] };
    let run = plan_invoke(&cam, 6, InvokeKind::Virtual, &base).unwrap();
    let count = plan_invoke(&cam, 10, InvokeKind::Static, &base).unwrap();

    let mut stack = CallStack::new();
    stack.create_and_push_call_frame(ClassAndMethod { class: &caller, method: &caller.methods[0] }, None, vec![], false);
    stack.push_operand_value(Value::Integer(40));
    stack.push_operand_value(Value::Reference(RefId(5)));
    stack.push_operand_value(Value::Integer(9));
    assert_eq!(take_arguments(&mut stack, &run), Ok((vec![Value::Integer(9)], Some(RefId(5)))));
    assert_eq!(stack.pop_operand_value(), Some(Value::Integer(40)));

    stack.push_operand_value(Value::Long(3));
    assert_eq!(take_arguments(&mut stack, &count), Ok((vec![Value::Long(3), Value::Dummy], None)));
    assert_eq!(stack.pop_operand_value(), None);

    stack.push_operand_value(Value::Reference(RefId(0)));
    stack.push_operand_value(Value::Integer(1));
    assert!(matches!(take_arguments(&mut stack, &run), Err(VmError::ValidationError(_))));
    assert_eq!(stack.pop_operand_value(), None);

    stack.push_operand_value(Value::Integer(7));
    stack.push_operand_value(Value::Integer(1));
    assert!(matches!(take_arguments(&mut stack, &run), Err(VmError::ValidationError(_))));
}

#[test]
fn virtual_invokes_dispatch_on_the_receiver_class() {
    let base = base();
    let derived = class(
        3,
        "Derived",
        Some(&base),
        vec![],
        vec![method("run", "(I)V", vec![MethodFlag::Public], Some(code(1, 2)))],
    );
    let other = class(4, "Other", Some(&base), vec![], vec![]);
    assert_eq!(dispatch_method(ClassAndMethod { class: &base, method: &base.methods[0] }, InvokeKind::Virtual, &derived).unwrap().format(), "Derived.run(I)V");
    assert_eq!(dispatch_method(ClassAndMethod { class: &base, method: &base.methods[0] }, InvokeKind::Virtual, &other).unwrap().format(), "Base.run(I)V");
    assert_eq!(dispatch_method(ClassAndMethod { class: &base, method: &base.methods[0] }, InvokeKind::Special, &derived).unwrap().format(), "Base.run(I)V");
    let lonely = class(5, "Lonely", None, vec![], vec![]);
    assert!(matches!(
        dispatch_method(ClassAndMethod { class: &base, method: &base.methods[0] }, InvokeKind::Virtual, &lonely),
        Err(VmError::JavaException(JavaError::MethodNotFoundException(_)))
    ));
}

fn native(name: &str, descriptor: &str) -> MethodInfo {
    method(name, descriptor, vec![MethodFlag::Static, MethodFlag::Native], None)
}

#[test]
fn natives_are_found_by_class_name_and_descriptor() {
    assert_eq!(find_native("java/lang/Float", "floatToRawIntBits", "(F)I"), Some(NativeMethod::FloatToRawBits));
    assert_eq!(
        find_native("java/lang/System", "arraycopy", "(Ljava/lang/Object;ILjava/lang/Object;II)V"),
        Some(NativeMethod::Arraycopy)
    );
    assert_eq!(find_native("sun/misc/Unsafe", "getInt", "(J)I"), Some(NativeMethod::GetInt));
    assert_eq!(find_native("sun/misc/Unsafe", "getInt", "(Ljava/lang/Object;J)I"), Some(NativeMethod::GetIntVolatile));
    assert_eq!(find_native("sun/misc/Unsafe", "pageSize", "()I"), Some(NativeMethod::PageSize));
    assert_eq!(find_native("java/lang/Float", "floatToRawIntBits", "(D)I"), None);
    assert_eq!(find_native("java/lang/Object", "toString", "()Ljava/lang/String;"), None);
    assert_eq!(
        find_native("java/lang/Object", "hashCode", "()I"),
        Some(NativeMethod::Machine(MachineNative::HashCode))
    );
    assert_eq!(
        find_native("java/lang/System", "identityHashCode", "(Ljava/lang/Object;)I"),
        Some(NativeMethod::Machine(MachineNative::IdentityHashCode))
    );
    assert_eq!(
        find_native("java/lang/Class", "getPrimitiveClass", "(Ljava/lang/String;)Ljava/lang/Class;"),
        Some(NativeMethod::Machine(MachineNative::GetPrimitiveClass))
    );
    assert_eq!(
        find_native("java/io/FileInputStream", "readBytes", "([BII)I"),
        Some(NativeMethod::Machine(MachineNative::ReadBytes))
    );
    assert_eq!(
        find_native("sun/misc/Unsafe", "objectFieldOffset", "(Ljava/lang/reflect/Field;)J"),
        Some(NativeMethod::Machine(MachineNative::ObjectFieldOffset))
    );
    assert_eq!(
        find_native("java/lang/invoke/MethodHandleNatives", "objectFieldOffset", "(Ljava/lang/invoke/MemberName;)J"),
        Some(NativeMethod::Machine(MachineNative::MemberObjectFieldOffset))
    );
}

#[test]
fn registered_natives_run_with_their_arguments() {
    let mut heap = Heap::new();
    let mut memory = Unsafe::new();
    let float_bits = native("floatToRawIntBits", "(F)I");
    assert_eq!(
        invoke_registered("java/lang/Float", &float_bits, false, &mut heap, &mut memory, None, &vec![Value::Float(0x3f80_0000)], None),
        Some(NativeCall::Done(Ok(Some(Value::Integer(0x3f80_0000)))))
    );
    assert!(matches!(
        invoke_registered("java/lang/Float", &float_bits, false, &mut heap, &mut memory, None, &vec![], None),
        Some(NativeCall::Done(Err(VmError::ValidationError(_))))
    ));
    let long_bits = native("longBitsToDouble", "(J)D");
    assert_eq!(
        invoke_registered("java/lang/Double", &long_bits, false, &mut heap, &mut memory, None, &vec![Value::Long(-1), Value::Dummy], None),
        Some(NativeCall::Done(Ok(Some(Value::Double(u64::MAX)))))
    );
    let hash = native("hashCode", "()I");
    assert_eq!(
        invoke_registered("java/lang/Object", &hash, false, &mut heap, &mut memory, Some(RefId(1)), &vec![], None),
        Some(NativeCall::Machine(MachineNative::HashCode))
    );
    assert!(matches!(
        invoke_registered("java/lang/Object", &hash, false, &mut heap, &mut memory, Some(RefId(1)), &vec![Value::Integer(1)], None),
        Some(NativeCall::Done(Err(VmError::ValidationError(_))))
    ));
    let invoke = native("invoke", "([Ljava/lang/Object;)Ljava/lang/Object;");
    let two = vec![Value::Integer(1), Value::Integer(2)];
    assert_eq!(
        invoke_registered("java/lang/invoke/MethodHandle", &invoke, true, &mut heap, &mut memory, Some(RefId(1)), &two, None),
        Some(NativeCall::Machine(MachineNative::Invoke))
    );
    assert!(matches!(
        invoke_registered("java/lang/invoke/MethodHandle", &invoke, false, &mut heap, &mut memory, Some(RefId(1)), &two, None),
        Some(NativeCall::Done(Err(VmError::ValidationError(_))))
    ));
    let to_string = native("toString", "()Ljava/lang/String;");
    assert_eq!(invoke_registered("java/lang/Object", &to_string, false, &mut heap, &mut memory, None, &vec![], None), None);
    assert_eq!(count_arguments(&vec![Value::Long(1), Value::Dummy, Value::Integer(2)]), 2);
}

fn int_array(id: u32, values: &[i32]) -> ReferenceValue {
    ReferenceValue::new_array(
        RefId(id),
        ClassId(3),
        "[I".to_string(),
        1,
        FieldType::Primitive(PrimitiveType::Integer),
        values.iter().map(|v| Value::Integer(*v)).collect(),
    )
}

fn elements(heap: &Heap, id: u32) -> Vec<Value> {
    let a = heap.resolve_object_by_id(RefId(id)).unwrap();
    (0..a.get_length()).map(|i| a.get_element(i)).collect()
}

#[test]
fn native_methods_run_by_kind() {
    let mut heap = Heap::new();
    let mut memory = Unsafe::new();
    heap.insert(int_array(1, &[1, 2, 3]));
    heap.insert(int_array(2, &[0, 0, 0]));
    let args = vec![
        Value::Reference(RefId(1)),
        Value::Integer(1),
        Value::Reference(RefId(2)),
        Value::Integer(0),
        Value::Integer(2),
    ];
    assert_eq!(invoke_native(NativeMethod::Arraycopy, &mut heap, &mut memory, None, &args, None), Ok(None));
    assert_eq!(elements(&heap, 2), vec![Value::Integer(2), Value::Integer(3), Value::Integer(0)]);
    assert_eq!(
        invoke_native(NativeMethod::AddressSize, &mut heap, &mut memory, None, &vec![], None),
        Ok(Some(Value::Integer(8)))
    );
    let allocated =
        invoke_native(NativeMethod::AllocateMemory, &mut heap, &mut memory, None, &vec![Value::Long(12), Value::Dummy], None);
    let address = match allocated {
        Ok(Some(Value::Long(a))) => a,
        other => panic!("no address: {:?}", other),
    };
    let put = vec![Value::Long(address), Value::Dummy, Value::Integer(77)];
    assert_eq!(invoke_native(NativeMethod::PutInt, &mut heap, &mut memory, None, &put, None), Ok(None));
    let get = vec![Value::Long(address), Value::Dummy];
    assert_eq!(invoke_native(NativeMethod::GetInt, &mut heap, &mut memory, None, &get, None), Ok(Some(Value::Integer(77))));
}

fn byte_array(id: u32, len: usize) -> ReferenceValue {
    ReferenceValue::new_array(
        RefId(id),
        ClassId(4),
        "[B".to_string(),
        1,
        FieldType::Primitive(PrimitiveType::Byte),
        vec![Value::Integer(0); len],
    )
}

#[test]
fn file_reads_fill_the_array_and_move_the_position() {
    let mut heap = Heap::new();
    heap.insert(byte_array(1, 5));
    let content: Vec<u8> = vec![10, 200, 30];
    assert_eq!(read_bytes_step(&mut heap, RefId(1), 1, 2, &content, 0), Ok((2, 2)));
    assert_eq!(
        elements(&heap, 1),
        vec![Value::Integer(0), Value::Integer(10), Value::Integer(200), Value::Integer(0), Value::Integer(0)]
    );
    assert_eq!(read_bytes_step(&mut heap, RefId(1), 0, 4, &content, 2), Ok((1, 3)));
    assert_eq!(elements(&heap, 1)[0], Value::Integer(30));
    assert_eq!(read_bytes_step(&mut heap, RefId(1), 0, 4, &content, 3), Ok((-1, 3)));
    assert_eq!(read_bytes_step(&mut heap, RefId(1), 0, 0, &content, 1), Ok((0, 1)));
    assert!(matches!(read_bytes_step(&mut heap, RefId(9), 0, 1, &content, 0), Err(VmError::ValidationError(_))));
}

fn char_array(id: u32, text: &str) -> ReferenceValue {
    ReferenceValue::new_array(
        RefId(id),
        ClassId(5),
        "[C".to_string(),
        1,
        FieldType::Primitive(PrimitiveType::Char),
        text.chars().map(|c| Value::Integer(c as i32)).collect(),
    )
}

#[test]
fn objects_and_arrays_are_reported_by_component() {
    let mut heap = Heap::new();
    heap.insert(char_array(2, "hi"));
    let holder = || {
        ReferenceValue::new_object(
            RefId(1),
            ClassId(6),
            "Holder".to_string(),
            vec![Value::Integer(3), Value::Reference(RefId(0)), Value::Reference(RefId(2))],
        )
    };
    heap.insert(holder());
    assert_eq!(
        components_printable(&heap, &holder()),
        vec![
            Printable::Value(Value::Integer(3)),
            Printable::Null,
            Printable::Object(2, "[C".to_string(), 5, Some("hi".to_string())),
        ]
    );

    assert_eq!(components_printable(&heap, &char_array(2, "hi")), vec![Printable::Text("hi".to_string())]);

    let bytes = ReferenceValue::new_array(
        RefId(3),
        ClassId(4),
        "[B".to_string(),
        1,
        FieldType::Primitive(PrimitiveType::Byte),
        vec![Value::Integer(15), Value::Integer(-1)],
    );
    assert_eq!(components_printable(&heap, &bytes), vec![Printable::Hex(15), Printable::Hex(-1)]);

    let objects = ReferenceValue::new_array(
        RefId(4),
        ClassId(7),
        "[Ljava/lang/Object;".to_string(),
        1,
        FieldType::Object("java/lang/Object".to_string()),
        vec![
            Value::Reference(RefId(0)),
            Value::Reference(RefId(0)),
            Value::Reference(RefId(1)),
            Value::Reference(RefId(0)),
        ],
    );
    assert_eq!(
        components_printable(&heap, &objects),
        vec![
            Printable::Nulls(2),
            Printable::Object(1, "Holder".to_string(), 6, None),
            Printable::Nulls(1),
        ]
    );
}

#[test]
fn new_objects_start_with_their_field_values() {
    let mut point = class(8, "Point", None, vec![ConstantPoolEntry::Integer(42)], vec![]);
    point.fields = vec![
        FieldInfo {
            flags: vec![],
            name: "x".to_string(),
            field_type: FieldType::Primitive(PrimitiveType::Long),
            deprecated: false,
            constant_value: None,
            attributes: vec![],
        },
        FieldInfo {
            flags: vec![],
            name: "label".to_string(),
            field_type: FieldType::Object("java/lang/String".to_string()),
            deprecated: false,
            constant_value: None,
            attributes: vec![],
        },
    ];
    point.transitive_field_count = 2;
    let mut heap = Heap::new();
    assert_eq!(allocate_object(&mut heap, &point, RefId(7)), Value::Reference(RefId(7)));
    let object = heap.resolve_object_by_id(RefId(7)).unwrap();
    assert_eq!(object.get_field(0), Value::Long(0));
    assert_eq!(object.get_field(1), Value::Reference(RefId(0)));
    assert_eq!(object.class_name(), "Point");
}

#[test]
fn new_arrays_hold_zeros_of_their_component_type() {
    assert_eq!(newarray_type(10), Some(PrimitiveType::Integer));
    assert_eq!(newarray_type(4), Some(PrimitiveType::Boolean));
    assert_eq!(newarray_type(11), Some(PrimitiveType::Long));
    assert_eq!(newarray_type(3), None);
    assert_eq!(newarray_type(12), None);
    let mut heap = Heap::new();
    let r = allocate_array(&mut heap, RefId(3), ClassId(9), "[J".to_string(), FieldType::Primitive(PrimitiveType::Long), 3);
    assert_eq!(r, Value::Reference(RefId(3)));
    assert_eq!(elements(&heap, 3), vec![Value::Long(0), Value::Long(0), Value::Long(0)]);
    let empty = allocate_array(&mut heap, RefId(4), ClassId(10), "[Ljava/lang/Object;".to_string(), FieldType::Object("java/lang/Object".to_string()), 0);
    assert_eq!(empty, Value::Reference(RefId(4)));
    assert_eq!(elements(&heap, 4), vec![]);
}

fn handler(start: u16, end: u16, target: u16, catch_type: Option<&str>) -> ExceptionTableEntry {
    ExceptionTableEntry {
        start_pc: ProgramCounter(start),
        end_pc: ProgramCounter(end),
        handler_pc: ProgramCounter(target),
        catch_type: catch_type.map(|t| t.to_string()),
    }
}

#[test]
fn returns_hand_their_value_to_the_caller() {
    let base = base();
    let mut stack = CallStack::new();
    let count = ClassAndMethod { class: &base, method: &base.methods[1] };
    stack.create_and_push_call_frame(ClassAndMethod { class: &base, method: &base.methods[1] }, None, vec![], false);
    stack.create_and_push_call_frame(count, None, vec![Value::Long(1), Value::Dummy], true);
    assert_eq!(after_step(&mut stack, StepEvent::Returned(Some(Value::Integer(4)))), NextAction::Continue);
    assert_eq!(stack.len(), 1);
    assert_eq!(stack.pop_operand_value(), Some(Value::Integer(4)));

    let called = Invocation {
        method: ClassAndMethod { class: &base, method: &base.methods[0] },
        object: Some(RefId(3)),
        args: vec![Value::Integer(8)],
        should_push_return: false,
    };
    assert_eq!(after_step(&mut stack, StepEvent::Called(called)), NextAction::Continue);
    assert_eq!(stack.len(), 2);
    assert_eq!(stack.load_local(0), Some(Value::Reference(RefId(3))));
    assert_eq!(stack.load_local(1), Some(Value::Integer(8)));
    assert_eq!(after_step(&mut stack, StepEvent::Returned(Some(Value::Integer(5)))), NextAction::Continue);
    assert_eq!(stack.pop_operand_value(), None);
    assert_eq!(after_step(&mut stack, StepEvent::Returned(Some(Value::Integer(6)))), NextAction::Finished(Some(Value::Integer(6))));
    assert!(stack.is_empty());
}

#[test]
fn class_initialisers_are_pushed_in_order() {
    let base = base();
    let caller = caller();
    let mut stack = CallStack::new();
    stack.create_and_push_call_frame(ClassAndMethod { class: &caller, method: &caller.methods[0] }, None, vec![], false);
    let initialisers = vec![
        Invocation {
            method: ClassAndMethod { class: &base, method: &base.methods[1] },
            object: None,
            args: vec![],
            should_push_return: false,
        },
        Invocation {
            method: ClassAndMethod { class: &caller, method: &caller.methods[0] },
            object: None,
            args: vec![],
            should_push_return: false,
        },
    ];
    assert_eq!(after_step(&mut stack, StepEvent::NeedsClassInit(initialisers)), NextAction::Continue);
    assert_eq!(stack.len(), 3);
    assert_eq!(stack.get_class_and_method_cloned().format(), "Caller.main()V");
    stack.pop_call_frame();
    assert_eq!(stack.get_class_and_method_cloned().format(), "Base.count(J)I");
}

#[test]
fn thrown_exceptions_go_to_the_first_handler_or_propagate() {
    let throwable = class(20, "java/lang/Throwable", None, vec![], vec![]);
    let problem = class(21, "Problem", Some(&throwable), vec![], vec![]);
    let mut guarded_code = code(2, 1);
    guarded_code.exception_table = ExceptionTable(vec![
        handler(0, 3, 10, Some("Other")),
        handler(2, 6, 20, Some("java/lang/Throwable")),
        handler(2, 6, 30, None),
    ]);
    let guarded = class(22, "Guarded", None, vec![], vec![method("run", "()V", vec![MethodFlag::Static], Some(guarded_code))]);
    let mut stack = CallStack::new();
    stack.create_and_push_call_frame(ClassAndMethod { class: &guarded, method: &guarded.methods[0] }, None, vec![], false);
    stack.create_and_push_call_frame(ClassAndMethod { class: &guarded, method: &guarded.methods[0] }, None, vec![], false);
    stack.set_pc(4);
    assert_eq!(after_step(&mut stack, StepEvent::Thrown(&problem, Value::Reference(RefId(9)))), NextAction::Continue);
    assert_eq!(stack.get_pc(), ProgramCounter(20));
    assert_eq!(stack.pop_operand_value(), Some(Value::Reference(RefId(9))));
    stack.set_pc(8);
    assert_eq!(after_step(&mut stack, StepEvent::Thrown(&problem, Value::Reference(RefId(9)))), NextAction::Propagate);
    assert_eq!(stack.len(), 1);
}

#[test]
fn a_new_machine_knows_only_the_returner() {
    let returner = returner_class();
    let base = base();
    let caller = caller();
    let mut machine = Machine::new(&returner);
    assert!(machine.call_stack.is_empty());
    assert!(machine.init_call_stack.is_empty());
    assert!(machine.heap.resolve_object_by_id(RefId(1)).is_err());
    assert!(machine.static_class_objects.is_empty());
    assert!(machine.string_objects.is_empty());
    assert!(machine.current_thread.is_none());
    assert_ne!(machine.memory.allocate_memory(8), -1);
    assert_eq!(machine.classes.find_class_by_id(ClassId(0)).unwrap().name, "internal/Returner");
    assert!(machine.classes.find_class_by_name("internal/Returner").is_none());
    assert_eq!(machine.classes.take_next_id(), ClassId(0));
    assert_eq!(machine.classes.take_next_id(), ClassId(1));
    machine.classes.register(&base);
    machine.classes.register(&caller);
    assert_eq!(machine.classes.find_class_by_name("Base").unwrap().id, ClassId(1));
    assert_eq!(machine.classes.find_class_by_id(ClassId(2)).unwrap().name, "Caller");
    assert!(machine.classes.find_class_by_name("Other").is_none());
}
