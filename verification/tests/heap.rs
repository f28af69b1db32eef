use rjvm::field_info::{FieldType, PrimitiveType};
use rjvm::vm::class::ClassId;
use rjvm::vm::heap::Heap;
use rjvm::vm::value::{RefId, ReferenceValue, Value};
use rjvm::vm::VmError;

fn object() -> ReferenceValue {
    ReferenceValue::new_object(
        RefId(7),
        ClassId(2),
        "Point".to_string(),
        vec![Value::Integer(1), Value::Long(2), Value::Reference(RefId(3))],
    )
}

fn array() -> ReferenceValue {
    ReferenceValue::new_array(
        RefId(8),
        ClassId(3),
        "[I".to_string(),
        1,
        FieldType::Primitive(PrimitiveType::Integer),
        vec![Value::Integer(0); 4],
    )
}

#[test]
fn object_fields_read_back_what_was_written() {
    let mut o = object();
    assert!(o.is_object());
    assert!(!o.is_array());
    o.set_field(0, Value::Integer(42));
    assert_eq!(o.get_field(0), Value::Integer(42));
    assert_eq!(o.get_field(1), Value::Long(2));
    assert_eq!(o.get_int_field(0), Ok(42));
    assert_eq!(o.get_long_field(1), Ok(2));
    assert_eq!(o.get_ref_field(2), Ok(RefId(3)));
}

#[test]
fn typed_field_reads_check_the_kind() {
    let o = object();
    assert!(matches!(o.get_int_field(1), Err(VmError::ValidationError(_))));
    assert!(matches!(o.get_ref_field(0), Err(VmError::ValidationError(_))));
    let a = array();
    assert!(matches!(a.get_int_field(0), Err(VmError::ValidationError(_))));
}

#[test]
fn array_elements_and_length() {
    let mut a = array();
    assert!(a.is_array());
    assert_eq!(a.get_length(), 4);
    a.set_element(3, Value::Integer(9));
    assert_eq!(a.get_element(3), Value::Integer(9));
    assert_eq!(a.get_element(2), Value::Integer(0));
}

#[test]
fn references_compare_by_identity() {
    let a = object();
    let mut b = object();
    b.set_field(0, Value::Integer(5));
    assert!(a == b);
    assert!(a != array());
    assert!(!a.is_null());
    let null = ReferenceValue::new_object(RefId(0), ClassId(0), "null".to_string(), vec![]);
    assert!(null.is_null());
}

#[test]
fn heap_files_objects_by_identity() {
    let mut heap = Heap::new();
    assert!(matches!(heap.resolve_object_by_id(RefId(7)), Err(VmError::ValidationError(_))));
    heap.insert(object());
    heap.insert(array());
    assert_eq!(heap.resolve_object_by_id(RefId(7)).unwrap().get_field(0), Value::Integer(1));
    heap.set_field(RefId(7), 0, Value::Integer(3));
    heap.set_element(RefId(8), 2, Value::Integer(4));
    assert_eq!(heap.resolve_object_by_id(RefId(7)).unwrap().get_field(0), Value::Integer(3));
    assert_eq!(heap.resolve_object_by_id(RefId(8)).unwrap().get_element(2), Value::Integer(4));
    // inserting under an identity already used replaces the object
    heap.insert(object());
    assert_eq!(heap.resolve_object_by_id(RefId(7)).unwrap().get_field(0), Value::Integer(1));
}
