use rjvm::field_info::{FieldType, PrimitiveType};
use rjvm::vm::class::ClassId;
use rjvm::vm::heap::Heap;
use rjvm::vm::strings::{
    char_array_of, extract_class_name_from_class_ref, extract_long, extract_string_from_char_arr,
    extract_string_from_ref, extract_string_from_value, replace_dots, string_from_char_array,
};
use rjvm::vm::value::{RefId, ReferenceValue, Value};
use rjvm::vm::VmError;

fn ints(bytes: &[i32]) -> Vec<Value> {
    bytes.iter().map(|b| Value::Integer(*b)).collect()
}

#[test]
fn ascii_strings_round_trip() {
    let stored = char_array_of("Hello, World");
    assert_eq!(stored[0], Value::Integer(72));
    assert_eq!(string_from_char_array(&stored), Ok("Hello, World".to_string()));
    assert_eq!(string_from_char_array(&[]), Ok(String::new()));
}

#[test]
fn char_array_holds_code_points() {
    assert_eq!(char_array_of("é日"), vec![Value::Integer(0xE9), Value::Integer(0x65E5)]);
}

#[test]
fn modified_utf8_is_decoded() {
    // a surrogate pair written as two three-byte sequences
    assert_eq!(
        string_from_char_array(&ints(&[0xED, 0xA0, 0x81, 0xED, 0xB0, 0x81])),
        Ok("\u{10401}".to_string())
    );
    // the two-byte form of NUL
    assert_eq!(string_from_char_array(&ints(&[0xC0, 0x80])), Ok("\0".to_string()));
    // two-byte UTF-8 passes through
    assert_eq!(string_from_char_array(&ints(&[0xC3, 0xA9])), Ok("é".to_string()));
}

#[test]
fn only_the_low_byte_of_each_element_counts() {
    assert_eq!(string_from_char_array(&ints(&[0x141, 0x242])), Ok("AB".to_string()));
    assert_eq!(
        string_from_char_array(&[Value::Long(65), Value::Integer(66)]),
        Ok("\0B".to_string())
    );
}

#[test]
fn invalid_modified_utf8_is_refused() {
    assert_eq!(string_from_char_array(&char_array_of("é")), Err(VmError::CESU8Error));
    assert_eq!(string_from_char_array(&ints(&[0xFF])), Err(VmError::CESU8Error));
}

fn char_array(id: u32, text: &str) -> ReferenceValue {
    ReferenceValue::new_array(
        RefId(id),
        ClassId(9),
        "[C".to_string(),
        1,
        FieldType::Primitive(PrimitiveType::Char),
        char_array_of(text),
    )
}

fn string_object(id: u32, chars: u32) -> ReferenceValue {
    ReferenceValue::new_object(
        RefId(id),
        ClassId(8),
        "java/lang/String".to_string(),
        vec![Value::Reference(RefId(chars)), Value::Integer(0)],
    )
}

fn heap_with_strings() -> Heap {
    let mut heap = Heap::new();
    heap.insert(char_array(1, "java.lang.Object"));
    heap.insert(string_object(2, 1));
    heap.insert(ReferenceValue::new_object(
        RefId(3),
        ClassId(7),
        "java/lang/Class".to_string(),
        vec![
            Value::Reference(RefId(0)),
            Value::Reference(RefId(0)),
            Value::Reference(RefId(0)),
            Value::Reference(RefId(0)),
            Value::Reference(RefId(0)),
            Value::Reference(RefId(2)),
        ],
    ));
    heap.insert(ReferenceValue::new_object(RefId(4), ClassId(6), "java/lang/Long".to_string(), vec![Value::Long(-5)]));
    heap.insert(ReferenceValue::new_array(
        RefId(5),
        ClassId(9),
        "[C".to_string(),
        1,
        FieldType::Primitive(PrimitiveType::Char),
        ints(&[0xFF]),
    ));
    heap
}

#[test]
fn strings_are_read_out_of_the_heap() {
    let heap = heap_with_strings();
    assert_eq!(extract_string_from_char_arr(&heap, Value::Reference(RefId(1))), Ok("java.lang.Object".to_string()));
    assert_eq!(extract_string_from_value(&heap, Value::Reference(RefId(2))), Ok("java.lang.Object".to_string()));
    let string = heap.resolve_object_by_id(RefId(2)).unwrap();
    assert_eq!(extract_string_from_ref(&heap, string), Ok("java.lang.Object".to_string()));
    let class_object = heap.resolve_object_by_id(RefId(3)).unwrap();
    assert_eq!(extract_class_name_from_class_ref(&heap, class_object), Ok("java/lang/Object".to_string()));
}

#[test]
fn what_is_no_string_is_refused() {
    let heap = heap_with_strings();
    let refused = |r: Result<String, VmError>| matches!(r, Err(VmError::ValidationError(_)));
    assert!(refused(extract_string_from_char_arr(&heap, Value::Integer(1))));
    assert!(refused(extract_string_from_char_arr(&heap, Value::Reference(RefId(2)))));
    assert!(refused(extract_string_from_char_arr(&heap, Value::Reference(RefId(77)))));
    assert!(refused(extract_string_from_value(&heap, Value::Reference(RefId(0)))));
    assert!(refused(extract_string_from_value(&heap, Value::Long(3))));
    assert_eq!(extract_string_from_char_arr(&heap, Value::Reference(RefId(5))), Err(VmError::CESU8Error));
}

#[test]
fn boxed_longs_are_read_out_of_the_heap() {
    let heap = heap_with_strings();
    assert_eq!(extract_long(&heap, Value::Reference(RefId(4))), Ok(Value::Long(-5)));
    assert!(matches!(extract_long(&heap, Value::Reference(RefId(2))), Err(VmError::ValidationError(_))));
    assert!(matches!(extract_long(&heap, Value::Integer(4)), Err(VmError::ValidationError(_))));
}

#[test]
fn dots_become_slashes() {
    assert_eq!(replace_dots("java.util.Map.Entry"), "java/util/Map/Entry");
    assert_eq!(replace_dots(""), "");
}
