use rjvm::access_flags::{ClassFlag, FieldFlag, MethodFlag};
use rjvm::attribute::{
    Code, ConstantValue, ExceptionTable, LineNumber, LineNumberTable, LineNumberTableEntry,
    ProgramCounter,
};
use rjvm::constants::{ConstantPool, ConstantPoolEntry};
use rjvm::field_info::{FieldInfo, FieldType, PrimitiveType};
use rjvm::method_info::{MethodDescriptor, MethodInfo};
use rjvm::vm::callstack::{line_number_at, CallStack};
use rjvm::vm::class_manager::{link_class, try_create_array_class, ClassPieces};
use rjvm::vm::class::{default_value, same_text, Class, ClassAndMethod, ClassId};
use rjvm::vm::result::VMResultType;
use rjvm::vm::value::{RefId, Value};

fn code(max_stack: u16, max_locals: u16) -> Code {
    Code {
        max_stack,
        max_locals,
        code: vec![],
        attributes: vec![],
        line_number_table: None,
        exception_table: ExceptionTable(vec![]),
    }
}

fn method(name: &str, descriptor: &str, flags: Vec<MethodFlag>, code: Option<Code>) -> MethodInfo {
    MethodInfo {
        flags,
        name: name.to_string(),
        descriptor: MethodDescriptor::new(descriptor.to_string()),
        deprecated: false,
        code,
        exceptions: None,
        attributes: vec![],
    }
}

fn field(name: &str, field_type: FieldType, constant: Option<u16>) -> FieldInfo {
    FieldInfo {
        flags: vec![FieldFlag::Private],
        name: name.to_string(),
        field_type,
        deprecated: false,
        constant_value: constant.map(|constant_index| ConstantValue { constant_index }),
        attributes: vec![],
    }
}

fn base_class() -> Class<'static> {
    Class {
        id: ClassId(1),
        name: "Base".to_string(),
        source_file: None,
        constants: ConstantPool(vec![
            ConstantPoolEntry::Integer(7),
            ConstantPoolEntry::Utf8("x".to_string()),
        ]),
        flags: vec![ClassFlag::Public],
        superclass: None,
        interfaces: vec![],
        fields: vec![
            field("a", FieldType::Primitive(PrimitiveType::Integer), Some(1)),
            field("b", FieldType::Primitive(PrimitiveType::Double), None),
        ],
        methods: vec![
            method("<init>", "()V", vec![MethodFlag::Public], Some(code(1, 1))),
            method("run", "(I)V", vec![MethodFlag::Public], Some(code(2, 3))),
            method("run", "(J)V", vec![MethodFlag::Static], Some(code(2, 2))),
        ],
        transitive_field_count: 2,
        first_field_index: 0,
        array_info: None,
    }
}

fn derived_class<'a>(base: &'a Class<'a>) -> Class<'a> {
    Class {
        id: ClassId(2),
        name: "Derived".to_string(),
        source_file: None,
        constants: ConstantPool(vec![ConstantPoolEntry::Long(-3)]),
        flags: vec![ClassFlag::Public, ClassFlag::Interface],
        superclass: Some(base),
        interfaces: vec![],
        fields: vec![
            field("c", FieldType::Object("java/lang/String".to_string()), None),
            field("a", FieldType::Primitive(PrimitiveType::Long), Some(1)),
        ],
        methods: vec![method("<init>", "(I)V", vec![], None), method("<init>", "()V", vec![], None)],
        transitive_field_count: 4,
        first_field_index: 2,
        array_info: None,
    }
}

#[test]
fn find_method_matches_name_and_descriptor() {
    let base = base_class();
    assert_eq!(base.find_method("run", "(J)V").unwrap().descriptor.as_str(), "(J)V");
    assert!(base.find_method("run", "(J)I").is_none());
    assert!(base.find_method("walk", "(I)V").is_none());
}

#[test]
fn fields_are_found_in_the_class_before_its_superclasses() {
    let base = base_class();
    let derived = derived_class(&base);
    let (index, info, id) = derived.find_field_static("a").unwrap();
    assert_eq!((index, info.field_type.clone(), id), (3, FieldType::Primitive(PrimitiveType::Long), ClassId(2)));
    let (index, info, id) = derived.find_field_static("b").unwrap();
    assert_eq!((index, info.name.as_str(), id), (1, "b", ClassId(1)));
    assert_eq!(derived.find_field("c").map(|(i, _)| i), Some(2));
    assert!(derived.find_field("d").is_none());
}

#[test]
fn field_numbers_span_the_hierarchy() {
    let base = base_class();
    let derived = derived_class(&base);
    assert_eq!(derived.field_at_index(1).unwrap().name, "b");
    assert_eq!(derived.field_at_index(2).unwrap().name, "c");
    assert!(derived.field_at_index(4).is_none());
}

#[test]
fn starting_values_of_fields() {
    let base = base_class();
    let derived = derived_class(&base);
    assert_eq!(base.get_fields(), vec![Value::Integer(7), Value::Double(0)]);
    assert_eq!(
        derived.get_fields(),
        vec![Value::Integer(7), Value::Double(0), Value::Reference(RefId(0)), Value::Long(-3)]
    );
    assert_eq!(default_value(&FieldType::Primitive(PrimitiveType::Char)), Value::Integer(0));
}

#[test]
fn class_kinds_and_constructors() {
    let base = base_class();
    let derived = derived_class(&base);
    assert!(!base.is_interface());
    assert!(derived.is_interface());
    assert!(!base.is_array());
    let constructors = derived.get_constructors();
    assert_eq!(constructors.len(), 2);
    assert_eq!(constructors[0].descriptor.as_str(), "(I)V");
    assert_eq!(base.get_constructors().len(), 1);
}

#[test]
fn constants_as_values() {
    let base = base_class();
    assert_eq!(base.get_constant_as_value(1), Value::Integer(7));
    assert_eq!(base.get_constant_as_value(9), Value::Uninitialized);
    assert_eq!(base.get_constant(2), Some(ConstantPoolEntry::Utf8("x".to_string())));
}

#[test]
fn class_and_method_helpers() {
    let base = base_class();
    let cam = ClassAndMethod { class: &base, method: &base.methods[1] };
    assert_eq!(cam.format(), "Base.run(I)V");
    assert_eq!(cam.get_max_locals(), 3);
    assert_eq!(cam.get_max_stack_size(), 2);
    assert_eq!(cam.get_constant_utf8(2), Some("x".to_string()));
    assert!(same_text("abc", "abc"));
    assert!(!same_text("abc", "abd"));
}

#[test]
fn instance_frame_starts_with_this_and_arguments() {
    let base = base_class();
    let run = ClassAndMethod { class: &base, method: &base.methods[1] };
    let mut stack = CallStack::new();
    assert!(stack.is_empty());
    stack.create_and_push_call_frame(run, Some(RefId(5)), vec![Value::Integer(9)], true);
    assert_eq!(stack.len(), 1);
    assert_eq!(stack.load_local(0), Some(Value::Reference(RefId(5))));
    assert_eq!(stack.load_local(1), Some(Value::Integer(9)));
    assert_eq!(stack.load_local(2), Some(Value::Uninitialized));
    assert_eq!(stack.load_local(3), None);
    assert_eq!(stack.get_pc(), ProgramCounter(0));
}

#[test]
fn static_frame_gets_an_extra_slot() {
    let base = base_class();
    let run = ClassAndMethod { class: &base, method: &base.methods[2] };
    let mut stack = CallStack::new();
    stack.create_and_push_call_frame(run, None, vec![Value::Long(1), Value::Dummy], false);
    assert_eq!(stack.load_local(0), Some(Value::Long(1)));
    assert_eq!(stack.load_local(1), Some(Value::Dummy));
    assert_eq!(stack.load_local(2), Some(Value::Uninitialized));
    assert_eq!(stack.load_local(3), None);
}

#[test]
fn operands_locals_and_pc() {
    let base = base_class();
    let run = ClassAndMethod { class: &base, method: &base.methods[1] };
    let mut stack = CallStack::new();
    stack.create_and_push_call_frame(run, Some(RefId(5)), vec![], true);
    stack.push_operand_value(Value::Integer(1));
    stack.push_operand_value(Value::Integer(2));
    assert_eq!(stack.pop_operand_value(), Some(Value::Integer(2)));
    assert_eq!(stack.pop_operand_value(), Some(Value::Integer(1)));
    assert_eq!(stack.pop_operand_value(), None);
    stack.store_local(Value::Long(4), 2);
    assert_eq!(stack.load_local(2), Some(Value::Long(4)));
    stack.set_pc(17);
    assert_eq!(stack.get_pc(), ProgramCounter(17));
    assert_eq!(stack.pc_at(0), 17);
    assert_eq!(stack.get_class_and_method_cloned().format(), "Base.run(I)V");
}

#[test]
fn frames_pop_innermost_first_or_at_a_position() {
    let base = base_class();
    let mut stack = CallStack::new();
    stack.create_and_push_call_frame(ClassAndMethod { class: &base, method: &base.methods[0] }, Some(RefId(1)), vec![], false);
    stack.create_and_push_call_frame(ClassAndMethod { class: &base, method: &base.methods[1] }, Some(RefId(1)), vec![], true);
    stack.create_and_push_call_frame(ClassAndMethod { class: &base, method: &base.methods[2] }, None, vec![], false);
    let removed = stack.pop_call_frame_at(1);
    assert!(removed.should_push_return);
    assert_eq!(removed.class_and_method.format(), "Base.run(I)V");
    let top = stack.pop_call_frame();
    assert_eq!(top.class_and_method.format(), "Base.run(J)V");
    assert_eq!(stack.len(), 1);
    assert_eq!(stack.get_class_and_method_cloned().format(), "Base.<init>()V");
}

#[test]
fn line_numbers_for_code_positions() {
    let table = LineNumberTable(vec![
        LineNumberTableEntry::new(ProgramCounter(0), LineNumber(10)),
        LineNumberTableEntry::new(ProgramCounter(4), LineNumber(11)),
        LineNumberTableEntry::new(ProgramCounter(9), LineNumber(12)),
    ]);
    assert_eq!(line_number_at(&table, 0), 10);
    assert_eq!(line_number_at(&table, 4), 10);
    assert_eq!(line_number_at(&table, 5), 11);
    assert_eq!(line_number_at(&table, 100), 12);
    assert_eq!(line_number_at(&LineNumberTable(vec![]), 3), -1);
}

#[test]
fn result_kinds() {
    let done: VMResultType<Option<i32>> = VMResultType::Success(Some(3));
    assert!(done.is_ok());
    assert!(!done.is_call_paused());
    assert_eq!(done.to_option(), Some(3));
    let failed: VMResultType<Option<i32>> =
        VMResultType::ExceptionThrown(rjvm::vm::VmError::Unspecified("x".to_string()), Value::Dummy);
    assert!(!failed.is_ok());
    assert_eq!(failed.to_option(), None);
}

#[test]
fn array_classes_load_their_component_class() {
    let (name, info) = try_create_array_class("[Ljava/lang/String;").unwrap();
    assert_eq!(name, "java/lang/String");
    let info = info.unwrap();
    assert_eq!(info.dims(), 1);
    assert_eq!(info.component_type(), &FieldType::Object("java/lang/String".to_string()));
    let (name, info) = try_create_array_class("[[I").unwrap();
    assert_eq!(name, "java/lang/Integer");
    assert_eq!(info.unwrap().dims(), 2);
    let (name, info) = try_create_array_class("java/lang/String").unwrap();
    assert_eq!(name, "java/lang/String");
    assert!(info.is_none());
    let (name, info) = try_create_array_class("Foo").unwrap();
    assert_eq!(name, "Foo");
    assert!(info.is_none());
}

#[test]
fn the_internal_returner_class() {
    let returner = rjvm::vm::class_manager::returner_class();
    assert_eq!(returner.id, rjvm::vm::class::ClassId(0));
    assert_eq!(returner.name, "internal/Returner");
    assert_eq!(returner.methods.len(), 2);
    assert_eq!(returner.methods[0].name, "dummyReturn");
    assert!(returner.methods[0].descriptor.matches("()Ljava/lang/Object;"));
    assert_eq!(returner.methods[0].code.as_ref().unwrap().code, vec![0xb0]);
    assert_eq!(returner.methods[1].name, "dummyThrow");
    assert!(returner.methods[1].descriptor.matches("()V"));
    assert_eq!(returner.methods[1].code.as_ref().unwrap().code, vec![0xbf]);
    assert_eq!(returner.methods[1].code.as_ref().unwrap().max_stack, 1);
    assert!(returner.find_method("dummyThrow", "()V").is_some());
}

#[test]
fn linking_numbers_fields_after_the_superclass() {
    let base = base_class();
    let pieces = ClassPieces {
        source_file: Some("Leaf.java".to_string()),
        constant_pool: ConstantPool(vec![ConstantPoolEntry::Integer(1)]),
        access_flags: vec![ClassFlag::Public],
        fields: vec![
            field("d", FieldType::Primitive(PrimitiveType::Integer), None),
            field("e", FieldType::Primitive(PrimitiveType::Boolean), None),
            field("f", FieldType::Primitive(PrimitiveType::Long), None),
        ],
        methods: vec![method("<init>", "()V", vec![], None)],
    };
    let leaf = link_class(ClassId(9), "Leaf".to_string(), pieces, Some(&base), vec![], None);
    assert_eq!(leaf.id, ClassId(9));
    assert_eq!(leaf.name, "Leaf");
    assert_eq!(leaf.first_field_index, 2);
    assert_eq!(leaf.transitive_field_count, 5);
    assert_eq!(leaf.fields.len(), 3);
    assert_eq!(leaf.superclass.unwrap().name, "Base");
    assert_eq!(leaf.source_file.as_deref(), Some("Leaf.java"));
    assert_eq!(leaf.find_field("f").map(|(index, _)| index), Some(4));

    let root_pieces = ClassPieces {
        source_file: None,
        constant_pool: ConstantPool(vec![]),
        access_flags: vec![],
        fields: vec![field("g", FieldType::Primitive(PrimitiveType::Integer), None)],
        methods: vec![],
    };
    let root = link_class(ClassId(10), "Root".to_string(), root_pieces, None, vec![], None);
    assert_eq!(root.first_field_index, 0);
    assert_eq!(root.transitive_field_count, 1);
}
