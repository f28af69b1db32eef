use rjvm::access_flags::{ClassFlag, MethodFlag};
use rjvm::attribute::{Code, ExceptionTable, ExceptionTableEntry, ProgramCounter};
use rjvm::constants::ConstantPool;
use rjvm::field_info::PrimitiveType;
use rjvm::method_info::{MethodDescriptor, MethodInfo};
use rjvm::vm::callstack::CallStack;
use rjvm::vm::class::{Class, ClassAndMethod, ClassId};
use rjvm::vm::executor::{array_element_type, pop_arguments};
use rjvm::vm::java_error::JavaError;
use rjvm::vm::resolution::{
    check_if_subclass_of, get_method_interface_virtual, get_method_virtual, is_instance_of, try_resolve_exception_handler,
};
use rjvm::vm::value::Value;
use rjvm::vm::VmError;

fn method(name: &str, descriptor: &str) -> MethodInfo {
    MethodInfo {
        flags: vec![MethodFlag::Public],
        name: name.to_string(),
        descriptor: MethodDescriptor::new(descriptor.to_string()),
        deprecated: false,
        code: Some(Code {
            max_stack: 8,
            max_locals: 2,
            code: vec![],
            attributes: vec![],
            line_number_table: None,
            exception_table: ExceptionTable(vec![]),
        }),
        exceptions: None,
        attributes: vec![],
    }
}

fn class<'a>(
    id: u32,
    name: &str,
    flags: Vec<ClassFlag>,
    superclass: Option<&'a Class<'a>>,
    interfaces: Vec<&'a Class<'a>>,
    methods: Vec<MethodInfo>,
) -> Class<'a> {
    Class {
        id: ClassId(id),
        name: name.to_string(),
        source_file: None,
        constants: ConstantPool(vec![]),
        flags,
        superclass,
        interfaces,
        fields: vec![],
        methods,
        transitive_field_count: 0,
        first_field_index: 0,
        array_info: None,
    }
}

#[test]
fn virtual_lookup_climbs_the_superclasses() {
    let object = class(1, "java/lang/Object", vec![], None, vec![], vec![method("hashCode", "()I"), method("clone", "()Ljava/lang/Object;")]);
    let base = class(2, "Base", vec![], Some(&object), vec![], vec![method("run", "()V")]);
    let derived = class(3, "Derived", vec![], Some(&base), vec![], vec![method("other", "()V")]);
    let found = get_method_virtual(&derived, "run", "()V").unwrap();
    assert_eq!(found.class.name, "Base");
    let found = get_method_virtual(&derived, "hashCode", "()I").unwrap();
    assert_eq!(found.class.id, ClassId(1));
    match get_method_virtual(&derived, "missing", "()V") {
        Err(VmError::JavaException(JavaError::MethodNotFoundException(m))) => assert_eq!(m, "missing()V in Derived"),
        _ => panic!("expected a missing method"),
    }
}

#[test]
fn array_clone_comes_from_the_root_class() {
    let object = class(1, "java/lang/Object", vec![], None, vec![], vec![method("clone", "()Ljava/lang/Object;")]);
    let array = class(2, "[I", vec![], Some(&object), vec![], vec![method("clone", "()Ljava/lang/Object;")]);
    let found = get_method_virtual(&array, "clone", "()Ljava/lang/Object;").unwrap();
    assert_eq!(found.class.name, "java/lang/Object");
}

#[test]
fn interface_lookup_follows_the_first_superinterface() {
    let top = class(1, "Top", vec![ClassFlag::Interface], None, vec![], vec![method("go", "()V")]);
    let side = class(2, "Side", vec![ClassFlag::Interface], None, vec![], vec![method("go", "()V")]);
    let sub = class(3, "Sub", vec![ClassFlag::Interface], None, vec![&top, &side], vec![]);
    let found = get_method_virtual(&sub, "go", "()V").unwrap();
    assert_eq!(found.class.name, "Top");
    assert!(get_method_virtual(&sub, "stop", "()V").is_err());
}

#[test]
fn interface_call_lookup() {
    let object = class(1, "java/lang/Object", vec![], None, vec![], vec![method("toString", "()Ljava/lang/String;")]);
    let iface = class(2, "Runner", vec![ClassFlag::Interface], None, vec![], vec![method("run", "()V")]);
    let base = class(3, "Base", vec![], Some(&object), vec![&iface], vec![]);
    let derived = class(4, "Derived", vec![], Some(&base), vec![], vec![]);
    // the search climbs to Base, whose superclass is the root, then takes Base's first interface
    let found = get_method_interface_virtual(&derived, "run", "()V").unwrap();
    assert_eq!(found.class.name, "Runner");
    // the root class itself is never searched
    match get_method_interface_virtual(&derived, "toString", "()Ljava/lang/String;") {
        Err(VmError::JavaException(JavaError::MethodNotFoundException(m))) => {
            assert_eq!(m, "toString()Ljava/lang/String; in Derived")
        }
        _ => panic!("expected a missing method"),
    }
}

#[test]
fn call_arguments_leave_the_stack_in_order() {
    let holder = class(1, "Holder", vec![], None, vec![], vec![method("m", "(IJ)V")]);
    let mut stack = CallStack::new();
    stack.create_and_push_call_frame(ClassAndMethod { class: &holder, method: &holder.methods[0] }, Some(rjvm::vm::value::RefId(1)), vec![], false);
    stack.push_operand_value(Value::Integer(9));
    stack.push_operand_value(Value::Integer(1));
    stack.push_operand_value(Value::Long(2));
    let args = pop_arguments(&mut stack, 2);
    assert_eq!(args, vec![Value::Integer(1), Value::Long(2), Value::Dummy]);
    assert_eq!(stack.pop_operand_value(), Some(Value::Integer(9)));
    assert_eq!(pop_arguments(&mut stack, 0), vec![]);
}

#[test]
fn newarray_type_codes() {
    assert_eq!(array_element_type(4), PrimitiveType::Boolean);
    assert_eq!(array_element_type(7), PrimitiveType::Double);
    assert_eq!(array_element_type(10), PrimitiveType::Integer);
    assert_eq!(array_element_type(11), PrimitiveType::Long);
}

fn handler(start: u16, end: u16, target: u16, catch: Option<&str>) -> ExceptionTableEntry {
    ExceptionTableEntry {
        start_pc: ProgramCounter(start),
        end_pc: ProgramCounter(end),
        handler_pc: ProgramCounter(target),
        catch_type: catch.map(|c| c.to_string()),
    }
}

#[test]
fn subclass_checks_climb_the_superclasses() {
    let throwable = class(1, "java/lang/Throwable", vec![], None, vec![], vec![]);
    let exception = class(2, "java/lang/Exception", vec![], Some(&throwable), vec![], vec![]);
    let io = class(3, "java/io/IOException", vec![], Some(&exception), vec![], vec![]);
    assert!(check_if_subclass_of(&io, "java/lang/Throwable"));
    assert!(check_if_subclass_of(&io, "java/io/IOException"));
    assert!(!check_if_subclass_of(&exception, "java/io/IOException"));
}

#[test]
fn the_first_matching_handler_wins() {
    let throwable = class(1, "java/lang/Throwable", vec![], None, vec![], vec![]);
    let exception = class(2, "java/lang/Exception", vec![], Some(&throwable), vec![], vec![]);
    let io = class(3, "java/io/IOException", vec![], Some(&exception), vec![], vec![]);
    let table = ExceptionTable(vec![
        handler(0, 4, 20, Some("java/lang/Error")),
        handler(2, 8, 30, Some("java/lang/Exception")),
        handler(0, 10, 40, None),
    ]);
    assert_eq!(try_resolve_exception_handler(&table, ProgramCounter(3), &io), Some(ProgramCounter(30)));
    // the end of a range is covered too
    assert_eq!(try_resolve_exception_handler(&table, ProgramCounter(8), &io), Some(ProgramCounter(30)));
    assert_eq!(try_resolve_exception_handler(&table, ProgramCounter(9), &io), Some(ProgramCounter(40)));
    assert_eq!(try_resolve_exception_handler(&table, ProgramCounter(11), &io), None);
    assert_eq!(try_resolve_exception_handler(&table, ProgramCounter(1), &throwable), Some(ProgramCounter(40)));
}

#[test]
fn instances_reach_superclasses_and_superinterfaces() {
    let object = class(1, "java/lang/Object", vec![], None, vec![], vec![]);
    let iterable = class(2, "java/lang/Iterable", vec![ClassFlag::Interface], None, vec![], vec![]);
    let collection = class(3, "java/util/Collection", vec![ClassFlag::Interface], None, vec![&iterable], vec![]);
    let list = class(4, "java/util/List", vec![ClassFlag::Interface], None, vec![&collection], vec![]);
    let random_access = class(5, "java/util/RandomAccess", vec![ClassFlag::Interface], None, vec![], vec![]);
    let abstract_list = class(6, "java/util/AbstractList", vec![], Some(&object), vec![&list], vec![]);
    let array_list = class(7, "java/util/ArrayList", vec![], Some(&abstract_list), vec![&random_access, &list], vec![]);
    let string = class(8, "java/lang/String", vec![], Some(&object), vec![], vec![]);

    assert!(is_instance_of(&array_list, &array_list));
    assert!(is_instance_of(&array_list, &object));
    assert!(is_instance_of(&array_list, &iterable));
    assert!(is_instance_of(&array_list, &random_access));
    assert!(is_instance_of(&abstract_list, &collection));
    assert!(!is_instance_of(&abstract_list, &random_access));
    assert!(!is_instance_of(&string, &list));
    assert!(!is_instance_of(&object, &string));
}
