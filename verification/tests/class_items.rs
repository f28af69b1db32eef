use rjvm::access_flags::{
    parse_class_flags, parse_field_flags, parse_method_flags, ClassFlag, FieldFlag, MethodFlag,
};
use rjvm::bytes::{parse_u1, parse_u2, parse_u4, read_byte, read_u2, read_u4, ByteType};
use rjvm::class_file_version::ClassFileVersion;
use rjvm::constants::{ConstantPool, ConstantPoolEntry};
use rjvm::field_info::{field_type_from_str, parse_field_type, FieldType, PrimitiveType};
use rjvm::method_info::MethodDescriptor;
use rjvm::error::InvalidDirectoryError;
use rjvm::vm::class_path::split_class_path;
use rjvm::vm::class_path_entry::{class_file_name, FileSystemClassPathEntry};
use rjvm::vm::debug::exceptions::ExceptionHelper;
use rjvm::vm::value::{RefId, Value};
use rjvm::vm::VmError;

#[test]
fn class_flags_in_bit_order() {
    assert_eq!(parse_class_flags(0x0021), vec![ClassFlag::Public, ClassFlag::Super]);
    assert_eq!(
        parse_class_flags(0x0611),
        vec![ClassFlag::Public, ClassFlag::Final, ClassFlag::Interface, ClassFlag::Abstract]
    );
    assert_eq!(parse_class_flags(0), vec![]);
}

#[test]
fn unknown_flag_bits_are_ignored() {
    assert_eq!(parse_class_flags(0x0002), vec![]);
    assert_eq!(parse_method_flags(0x0200), vec![]);
}

#[test]
fn field_and_method_flags() {
    assert_eq!(
        parse_field_flags(0x001A),
        vec![FieldFlag::Private, FieldFlag::Static, FieldFlag::Final]
    );
    assert_eq!(
        parse_method_flags(0x0109),
        vec![MethodFlag::Public, MethodFlag::Static, MethodFlag::Native]
    );
    assert_eq!(MethodFlag::from_repr(0x0400), Some(MethodFlag::Abstract));
    assert_eq!(MethodFlag::from_repr(0x0003), None);
    assert_eq!(ClassFlag::Module.bits(), 0x8000);
    assert_eq!(FieldFlag::from_repr(0x4000), Some(FieldFlag::Enum));
}

#[test]
fn class_file_versions() {
    assert_eq!(ClassFileVersion::from_repr(52), Some(ClassFileVersion::Jdk8));
    assert_eq!(ClassFileVersion::from_repr(50), None);
    assert_eq!(ClassFileVersion::Jdk21.major(), 65);
}

#[test]
fn big_endian_reads_advance() {
    let bytes = [0x12u8, 0x34, 0x56, 0x78, 0x9A, 0xBC, 0xDE];
    let mut pos = 0usize;
    assert_eq!(read_byte(&bytes, &mut pos), 0x12);
    assert_eq!(parse_u2(&bytes, &mut pos), ByteType::U2(0x3456));
    assert_eq!(parse_u4(&bytes, &mut pos), ByteType::U4(0x789ABCDE));
    assert_eq!(pos, 7);
    let mut pos = 1usize;
    assert_eq!(parse_u1(&bytes, &mut pos), ByteType::U1(0x34));
    assert_eq!(ByteType::U2(0x3456).into_u32(), 0x3456);
}

#[test]
fn read_u2_and_u4_join_byte_values() {
    let bytes = vec![ByteType::U1(0xCA), ByteType::U1(0xFE), ByteType::U1(0xBA), ByteType::U1(0xBE)];
    let mut offset = 0usize;
    assert_eq!(read_u2(&bytes, &mut offset), ByteType::U2(0xCAFE));
    assert_eq!(offset, 2);
    let mut offset = 0usize;
    assert_eq!(read_u4(&bytes, &mut offset), ByteType::U4(0xCAFEBABE));
    assert_eq!(offset, 4);
}

#[test]
fn field_types_from_descriptors() {
    assert_eq!(field_type_from_str("I"), FieldType::Primitive(PrimitiveType::Integer));
    assert_eq!(field_type_from_str("Ljava/lang/String;"), FieldType::Object("java/lang/String".to_string()));
    assert_eq!(field_type_from_str("[[J"), FieldType::Object("[[J".to_string()));
    assert_eq!(
        field_type_from_str("[Ljava/lang/Object;"),
        FieldType::Object("[java/lang/Object;".to_string())
    );
}

#[test]
fn parse_field_type_prefers_the_array_form() {
    assert_eq!(parse_field_type(None, Some("Z"), None), FieldType::Primitive(PrimitiveType::Boolean));
    assert_eq!(parse_field_type(Some("a/B"), None, None), FieldType::Object("a/B".to_string()));
    assert_eq!(parse_field_type(Some("a/B"), None, Some("[")), FieldType::Object("[a/B;".to_string()));
    assert_eq!(parse_field_type(None, Some("D"), Some("[[")), FieldType::Object("[[D".to_string()));
}

#[test]
fn primitive_type_names() {
    assert_eq!(PrimitiveType::from_str("J"), Ok(PrimitiveType::Long));
    assert_eq!(PrimitiveType::from_str("C"), Ok(PrimitiveType::Char));
    assert_eq!(FieldType::Primitive(PrimitiveType::Integer).get_primitive_class(), "java/lang/Integer".to_string());
    assert_eq!(FieldType::Primitive(PrimitiveType::Char).to_class_name(), "java/lang/Character".to_string());
    assert_eq!(FieldType::Object("a/B".to_string()).to_class_name(), "a/B".to_string());
}

#[test]
fn method_descriptor_args_and_return() {
    let d = MethodDescriptor::new("(I[Ljava/lang/String;)V".to_string());
    assert_eq!(
        d.args,
        vec![
            FieldType::Primitive(PrimitiveType::Integer),
            FieldType::Object("[java/lang/String;".to_string())
        ]
    );
    assert_eq!(d.return_type, None);
    assert!(d.matches("(I[Ljava/lang/String;)V"));
    assert!(!d.matches("(I)V"));
    assert_eq!(d.as_str(), "(I[Ljava/lang/String;)V");
    let e = MethodDescriptor::new("(JD)Ljava/lang/Object;".to_string());
    assert_eq!(
        e.args,
        vec![FieldType::Primitive(PrimitiveType::Long), FieldType::Primitive(PrimitiveType::Double)]
    );
    assert_eq!(e.return_type, Some(FieldType::Object("java/lang/Object".to_string())));
}

fn pool() -> ConstantPool {
    ConstantPool(vec![
        ConstantPoolEntry::Utf8("java/lang/Object".to_string()),
        ConstantPoolEntry::Class(1),
        ConstantPoolEntry::Utf8("<init>".to_string()),
        ConstantPoolEntry::Utf8("()V".to_string()),
        ConstantPoolEntry::NameAndType(3, 4),
        ConstantPoolEntry::Methodref(2, 5),
        ConstantPoolEntry::String(3),
        ConstantPoolEntry::Integer(42),
        ConstantPoolEntry::Fieldref(2, 5),
    ])
}

#[test]
fn constant_lookup_is_one_based() {
    let p = pool();
    assert_eq!(p.get_constant(8), Some(ConstantPoolEntry::Integer(42)));
    assert_eq!(p.get_constant(10), None);
    assert_eq!(p.get_constant(2).unwrap().tag(), 7);
}

#[test]
fn utf8_lookup_follows_string_and_class_entries() {
    let p = pool();
    assert_eq!(p.get_constant_utf8(1), Some("java/lang/Object".to_string()));
    assert_eq!(p.get_constant_utf8(2), Some("java/lang/Object".to_string()));
    assert_eq!(p.get_constant_utf8(7), Some("<init>".to_string()));
    assert_eq!(p.get_constant_utf8(8), None);
    assert_eq!(p.get_constant_utf8(20), None);
}

#[test]
fn member_references_resolve_to_names() {
    let p = pool();
    assert_eq!(
        p.get_constant_method_info_descriptor(6),
        Some(("java/lang/Object".to_string(), "<init>".to_string(), "()V".to_string()))
    );
    assert_eq!(p.get_constant_method_info_descriptor(9), None);
    assert_eq!(
        p.get_constant_field_info_descriptor(9),
        Some(("java/lang/Object".to_string(), "<init>".to_string(), "()V".to_string()))
    );
    assert_eq!(p.get_constant_field_info_descriptor(6), None);
}

#[test]
fn class_path_splits_on_semicolons() {
    assert_eq!(split_class_path("a;b/c;d.jar"), vec!["a".to_string(), "b/c".to_string(), "d.jar".to_string()]);
    assert_eq!(split_class_path(""), vec!["".to_string()]);
    assert_eq!(split_class_path("x;"), vec!["x".to_string(), "".to_string()]);
}

#[test]
fn class_file_names() {
    assert_eq!(class_file_name("java.lang.String"), "java/lang/String.class".to_string());
    assert_eq!(class_file_name("Main"), "Main.class".to_string());
}

#[test]
fn directory_entries_must_be_directories() {
    let entry = FileSystemClassPathEntry::new("classes", true).unwrap();
    assert_eq!(entry.file_dir, "classes".to_string());
    assert_eq!(
        FileSystemClassPathEntry::new("missing", false).unwrap_err(),
        InvalidDirectoryError { path: "missing".to_string() }
    );
}

#[test]
fn exception_history_keeps_order() {
    let mut helper = ExceptionHelper::new();
    assert_eq!(helper.print(), Vec::<String>::new());
    helper.push("first".to_string());
    helper.push("second".to_string());
    assert_eq!(helper.print(), vec!["first".to_string(), "second".to_string()]);
}

#[test]
fn values_and_references() {
    assert!(RefId(0).is_null());
    assert!(!RefId(3).is_null());
    assert_eq!(RefId(3).nid(), 3);
    assert_eq!(Value::Integer(5).expect_int(), Ok(5));
    assert!(matches!(Value::Long(5).expect_int(), Err(VmError::ValidationError(_))));
    assert_eq!(Value::Long(-5).expect_long(), Ok(-5));
    assert_eq!(Value::Float(1.5f32.to_bits()).expect_float(), Ok(1.5f32.to_bits()));
    assert_eq!(Value::Double(2.5f64.to_bits()).expect_double(), Ok(2.5f64.to_bits()));
    assert!(matches!(Value::Dummy.expect_double(), Err(VmError::ValidationError(_))));
    assert_eq!(Value::Long(1).get_computational_type(), 2);
    assert_eq!(Value::Reference(RefId(1)).get_computational_type(), 1);
    assert_eq!(Value::Dummy.get_computational_type(), -1);
    assert!(Value::Reference(RefId(0)).is_null());
    assert!(!Value::Integer(0).is_null());
    assert_eq!(Value::default(), Value::Uninitialized);
}
