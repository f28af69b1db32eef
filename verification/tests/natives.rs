use rjvm::field_info::{FieldType, PrimitiveType};
use rjvm::vm::class::ClassId;
use rjvm::vm::heap::Heap;
use rjvm::vm::native::java_lang_class::delegate_is_primitive;
use rjvm::vm::native::java_lang_numbers::{
    delegate_double_to_raw_bits, delegate_float_to_raw_bits, delegate_long_bits_to_double,
};
use rjvm::vm::native::java_lang_system::delegate_arraycopy;
use rjvm::vm::native::sun_misc_unsafe::{
    delegate_address_size, delegate_allocate_memory, delegate_array_base_offset, delegate_array_index_scale,
    delegate_compare_and_swap_int, delegate_compare_and_swap_long, delegate_compare_and_swap_object,
    delegate_copy_memory, delegate_free_memory, delegate_get_byte, delegate_get_int, delegate_get_int_volatile,
    delegate_get_long, delegate_get_long_volatile, delegate_get_object_volatile, delegate_page_size,
    delegate_put_int, delegate_put_int_volatile, delegate_put_long, delegate_put_long_volatile,
    delegate_put_object_volatile, delegate_put_ordered_object, delegate_set_memory,
};
use rjvm::vm::strings::char_array_of;
use rjvm::vm::unsafe_memory::Unsafe;
use rjvm::vm::value::{RefId, ReferenceValue, Value};
use rjvm::vm::VmError;

fn int_array(id: u32, values: &[i32]) -> ReferenceValue {
    ReferenceValue::new_array(
        RefId(id),
        ClassId(3),
        "[I".to_string(),
        1,
        FieldType::Primitive(PrimitiveType::Integer),
        values.iter().map(|v| Value::Integer(*v)).collect(),
    )
}

fn byte_array(id: u32, len: usize) -> ReferenceValue {
    ReferenceValue::new_array(
        RefId(id),
        ClassId(4),
        "[B".to_string(),
        1,
        FieldType::Primitive(PrimitiveType::Byte),
        vec![Value::Integer(0); len],
    )
}

fn object(id: u32, fields: Vec<Value>) -> ReferenceValue {
    ReferenceValue::new_object(RefId(id), ClassId(2), "Counter".to_string(), fields)
}

fn ints(heap: &Heap, id: u32) -> Vec<i32> {
    let a = heap.resolve_object_by_id(RefId(id)).unwrap();
    (0..a.get_length())
        .map(|i| match a.get_element(i) {
            Value::Integer(v) => v,
            other => panic!("not an int: {:?}", other),
        })
        .collect()
}

fn field(heap: &Heap, id: u32, index: usize) -> Value {
    heap.resolve_object_by_id(RefId(id)).unwrap().get_field(index)
}

fn is_validation_error(r: Result<Option<Value>, VmError>) -> bool {
    matches!(r, Err(VmError::ValidationError(_)))
}

#[test]
fn float_and_double_bits_move_between_kinds() {
    assert_eq!(delegate_float_to_raw_bits(&vec![Value::Float(0x3f80_0000)]), Ok(Some(Value::Integer(0x3f80_0000))));
    assert_eq!(
        delegate_float_to_raw_bits(&vec![Value::Float(0xbf80_0000)]),
        Ok(Some(Value::Integer(-1_082_130_432)))
    );
    assert_eq!(
        delegate_double_to_raw_bits(&vec![Value::Double(0x3ff0_0000_0000_0000), Value::Dummy]),
        Ok(Some(Value::Long(4_607_182_418_800_017_408)))
    );
    assert_eq!(
        delegate_long_bits_to_double(&vec![Value::Long(-1), Value::Dummy]),
        Ok(Some(Value::Double(u64::MAX)))
    );
    assert_eq!(1.0f32.to_bits(), 0x3f80_0000);
    assert!(is_validation_error(delegate_float_to_raw_bits(&vec![Value::Integer(1)])));
    assert!(is_validation_error(delegate_double_to_raw_bits(&vec![])));
    assert!(is_validation_error(delegate_long_bits_to_double(&vec![Value::Double(0)])));
}

fn copy_args(src: u32, src_pos: i32, dst: u32, dst_pos: i32, length: i32) -> Vec<Value> {
    vec![
        Value::Reference(RefId(src)),
        Value::Integer(src_pos),
        Value::Reference(RefId(dst)),
        Value::Integer(dst_pos),
        Value::Integer(length),
    ]
}

#[test]
fn arraycopy_copies_between_arrays() {
    let mut heap = Heap::new();
    heap.insert(int_array(1, &[1, 2, 3, 4, 5]));
    heap.insert(int_array(2, &[0, 0, 0, 0]));
    assert_eq!(delegate_arraycopy(&mut heap, &copy_args(1, 1, 2, 0, 3)), Ok(None));
    assert_eq!(ints(&heap, 2), vec![2, 3, 4, 0]);
    assert_eq!(ints(&heap, 1), vec![1, 2, 3, 4, 5]);
    // nothing to copy
    assert_eq!(delegate_arraycopy(&mut heap, &copy_args(1, 5, 2, 4, 0)), Ok(None));
    assert_eq!(ints(&heap, 2), vec![2, 3, 4, 0]);
}

#[test]
fn arraycopy_within_one_array_copies_as_through_a_buffer() {
    let mut heap = Heap::new();
    heap.insert(int_array(1, &[1, 2, 3, 4, 5]));
    assert_eq!(delegate_arraycopy(&mut heap, &copy_args(1, 0, 1, 1, 3)), Ok(None));
    assert_eq!(ints(&heap, 1), vec![1, 1, 2, 3, 5]);
    assert_eq!(delegate_arraycopy(&mut heap, &copy_args(1, 2, 1, 0, 3)), Ok(None));
    assert_eq!(ints(&heap, 1), vec![2, 3, 5, 3, 5]);
}

#[test]
fn arraycopy_refuses_what_is_not_two_arrays() {
    let mut heap = Heap::new();
    heap.insert(int_array(1, &[1, 2]));
    heap.insert(object(2, vec![Value::Integer(0)]));
    assert!(is_validation_error(delegate_arraycopy(&mut heap, &copy_args(1, 0, 2, 0, 1))));
    assert!(is_validation_error(delegate_arraycopy(&mut heap, &copy_args(1, 0, 9, 0, 1))));
    let mut wrong = copy_args(1, 0, 1, 0, 1);
    wrong[4] = Value::Long(1);
    assert!(is_validation_error(delegate_arraycopy(&mut heap, &wrong)));
    assert_eq!(ints(&heap, 1), vec![1, 2]);
}

#[test]
fn unsafe_layout_constants() {
    let class_object = vec![Value::Reference(RefId(5))];
    assert_eq!(delegate_array_base_offset(&class_object), Ok(Some(Value::Integer(16))));
    assert_eq!(delegate_array_index_scale(&class_object), Ok(Some(Value::Integer(1))));
    assert_eq!(delegate_address_size(), Ok(Some(Value::Integer(8))));
    assert_eq!(delegate_page_size(), Ok(Some(Value::Integer(4096))));
    assert!(is_validation_error(delegate_array_base_offset(&vec![Value::Integer(5)])));
    assert!(is_validation_error(delegate_array_index_scale(&vec![])));
}

fn access(o: u32, offset: i64, value: Value) -> Vec<Value> {
    vec![Value::Reference(RefId(o)), Value::Long(offset), Value::Dummy, value]
}

#[test]
fn puts_reach_fields_and_elements_by_offset() {
    let mut heap = Heap::new();
    heap.insert(object(1, vec![Value::Integer(0), Value::Long(0), Value::Reference(RefId(0))]));
    heap.insert(int_array(2, &[0, 0, 0]));
    assert_eq!(delegate_put_int_volatile(&mut heap, &access(1, 0, Value::Integer(42))), Ok(None));
    assert_eq!(delegate_put_long_volatile(&mut heap, &access(1, 1, Value::Long(-7))), Ok(None));
    assert_eq!(delegate_put_object_volatile(&mut heap, &access(1, 2, Value::Reference(RefId(2)))), Ok(None));
    assert_eq!(field(&heap, 1, 0), Value::Integer(42));
    assert_eq!(field(&heap, 1, 1), Value::Long(-7));
    assert_eq!(field(&heap, 1, 2), Value::Reference(RefId(2)));
    // elements start at the array base offset
    assert_eq!(delegate_put_int_volatile(&mut heap, &access(2, 18, Value::Integer(9))), Ok(None));
    assert_eq!(ints(&heap, 2), vec![0, 0, 9]);
    // a value of the wrong kind, or a missing object, is refused
    assert!(is_validation_error(delegate_put_int_volatile(&mut heap, &access(1, 0, Value::Long(1)))));
    assert!(is_validation_error(delegate_put_long_volatile(&mut heap, &access(9, 0, Value::Long(1)))));
    assert_eq!(field(&heap, 1, 0), Value::Integer(42));
}

#[test]
fn gets_read_fields_elements_and_static_fields() {
    let mut heap = Heap::new();
    heap.insert(object(1, vec![Value::Integer(5), Value::Long(6), Value::Dummy]));
    heap.insert(int_array(2, &[7, 8]));
    heap.insert(ReferenceValue::new_object(RefId(3), ClassId(1), "java/lang/Class".to_string(), vec![]));
    heap.insert(object(4, vec![Value::Long(99), Value::Dummy]));
    let read = |o: u32, offset: i64| vec![Value::Reference(RefId(o)), Value::Long(offset)];
    assert_eq!(delegate_get_int_volatile(&heap, &read(1, 0), None), Ok(Some(Value::Integer(5))));
    assert_eq!(delegate_get_long_volatile(&heap, &read(1, 1), None), Ok(Some(Value::Long(6))));
    assert_eq!(delegate_get_object_volatile(&heap, &read(2, 17), None), Ok(Some(Value::Integer(8))));
    // a class object reads the static fields of its class
    assert_eq!(delegate_get_long_volatile(&heap, &read(3, 0), Some(RefId(4))), Ok(Some(Value::Long(99))));
    assert!(is_validation_error(delegate_get_int_volatile(&heap, &read(9, 0), None)));
    assert!(is_validation_error(delegate_get_int_volatile(&heap, &vec![Value::Reference(RefId(1))], None)));
}

#[test]
fn ordered_put_sets_static_fields_through_class_objects() {
    let mut heap = Heap::new();
    heap.insert(ReferenceValue::new_object(RefId(3), ClassId(1), "java/lang/Class".to_string(), vec![]));
    heap.insert(object(4, vec![Value::Reference(RefId(0))]));
    heap.insert(int_array(5, &[0, 0]));
    assert_eq!(
        delegate_put_ordered_object(&mut heap, &access(3, 0, Value::Reference(RefId(5))), Some(RefId(4))),
        Ok(None)
    );
    assert_eq!(field(&heap, 4, 0), Value::Reference(RefId(5)));
    assert_eq!(delegate_put_ordered_object(&mut heap, &access(5, 17, Value::Integer(3)), None), Ok(None));
    assert_eq!(ints(&heap, 5), vec![0, 3]);
}

#[test]
fn compare_and_swap_only_swaps_the_expected_value() {
    let mut heap = Heap::new();
    heap.insert(object(1, vec![Value::Integer(1), Value::Long(10), Value::Dummy]));
    let cas_int = |expected: i32, x: i32| {
        vec![Value::Reference(RefId(1)), Value::Long(0), Value::Dummy, Value::Integer(expected), Value::Integer(x)]
    };
    assert_eq!(delegate_compare_and_swap_int(&mut heap, &cas_int(1, 2)), Ok(Some(Value::Integer(1))));
    assert_eq!(field(&heap, 1, 0), Value::Integer(2));
    assert_eq!(delegate_compare_and_swap_int(&mut heap, &cas_int(1, 3)), Ok(Some(Value::Integer(0))));
    assert_eq!(field(&heap, 1, 0), Value::Integer(2));
    let cas_long = vec![
        Value::Reference(RefId(1)),
        Value::Long(1),
        Value::Dummy,
        Value::Long(10),
        Value::Dummy,
        Value::Long(11),
    ];
    assert_eq!(delegate_compare_and_swap_long(&mut heap, &cas_long), Ok(Some(Value::Integer(1))));
    assert_eq!(field(&heap, 1, 1), Value::Long(11));
    // arguments of other kinds give false
    assert_eq!(delegate_compare_and_swap_int(&mut heap, &vec![Value::Integer(0)]), Ok(Some(Value::Integer(0))));
    assert!(is_validation_error(delegate_compare_and_swap_long(
        &mut heap,
        &vec![Value::Reference(RefId(9)), Value::Long(1), Value::Dummy, Value::Long(0), Value::Dummy, Value::Long(1)]
    )));
}

#[test]
fn compare_and_swap_object_works_on_arrays_and_refuses_null() {
    let mut heap = Heap::new();
    heap.insert(ReferenceValue::new_array(
        RefId(1),
        ClassId(3),
        "[Ljava/lang/Object;".to_string(),
        1,
        FieldType::Object("java/lang/Object".to_string()),
        vec![Value::Reference(RefId(0)), Value::Reference(RefId(0))],
    ));
    heap.insert(object(0, vec![]));
    let cas = |o: u32, offset: i64, expected: u32, x: u32| {
        vec![
            Value::Reference(RefId(o)),
            Value::Long(offset),
            Value::Dummy,
            Value::Reference(RefId(expected)),
            Value::Reference(RefId(x)),
        ]
    };
    assert_eq!(delegate_compare_and_swap_object(&mut heap, &cas(1, 17, 0, 7)), Ok(Some(Value::Integer(1))));
    assert_eq!(
        heap.resolve_object_by_id(RefId(1)).unwrap().get_element(1),
        Value::Reference(RefId(7))
    );
    assert_eq!(delegate_compare_and_swap_object(&mut heap, &cas(1, 17, 0, 8)), Ok(Some(Value::Integer(0))));
    assert!(is_validation_error(delegate_compare_and_swap_object(&mut heap, &cas(0, 0, 0, 1))));
}

#[test]
fn native_memory_reads_back_what_was_written() {
    let mut memory = Unsafe::new();
    let ptr = match delegate_allocate_memory(&mut memory, &vec![Value::Long(16), Value::Dummy]) {
        Ok(Some(Value::Long(p))) => p,
        other => panic!("allocation failed: {:?}", other),
    };
    assert_eq!(ptr, 0x1000);
    assert_eq!(
        delegate_put_long(&mut memory, &vec![Value::Long(ptr), Value::Dummy, Value::Long(-2), Value::Dummy]),
        Ok(None)
    );
    assert_eq!(delegate_get_long(&memory, &vec![Value::Long(ptr), Value::Dummy]), Ok(Some(Value::Long(-2))));
    assert_eq!(delegate_get_byte(&memory, &vec![Value::Long(ptr), Value::Dummy]), Ok(Some(Value::Integer(-2))));
    assert_eq!(
        delegate_put_int(&mut memory, &vec![Value::Long(ptr + 8), Value::Dummy, Value::Integer(0x0102_0304)]),
        Ok(None)
    );
    assert_eq!(
        delegate_get_int(&memory, &vec![Value::Long(ptr + 8), Value::Dummy]),
        Ok(Some(Value::Integer(0x0102_0304)))
    );
    assert_eq!(delegate_get_byte(&memory, &vec![Value::Long(ptr + 8), Value::Dummy]), Ok(Some(Value::Integer(4))));
    assert_eq!(delegate_free_memory(&mut memory, &vec![Value::Long(ptr), Value::Dummy]), Ok(None));
    assert!(is_validation_error(delegate_get_long(&memory, &vec![Value::Integer(0)])));
    assert!(is_validation_error(delegate_allocate_memory(&mut memory, &vec![Value::Integer(8)])));
}

#[test]
fn set_and_copy_native_memory() {
    let mut memory = Unsafe::new();
    let ptr = 0x1000;
    let null = Value::Reference(RefId(0));
    let set = vec![null, Value::Long(ptr), Value::Dummy, Value::Long(4), Value::Dummy, Value::Integer(0x1ff)];
    assert_eq!(delegate_set_memory(&mut memory, &set), Ok(None));
    assert_eq!(delegate_get_int(&memory, &vec![Value::Long(ptr), Value::Dummy]), Ok(Some(Value::Integer(-1))));
    let mut heap = Heap::new();
    let copy = vec![null, Value::Long(ptr), Value::Dummy, null, Value::Long(ptr + 2), Value::Dummy, Value::Long(4)];
    assert_eq!(delegate_copy_memory(&mut heap, &mut memory, &copy), Ok(None));
    assert_eq!(delegate_get_int(&memory, &vec![Value::Long(ptr + 2), Value::Dummy]), Ok(Some(Value::Integer(-1))));
    assert_eq!(delegate_get_byte(&memory, &vec![Value::Long(ptr + 6), Value::Dummy]), Ok(Some(Value::Integer(0))));
}

#[test]
fn copy_memory_into_a_byte_array() {
    let mut memory = Unsafe::new();
    let ptr = 0x1000;
    delegate_put_int(&mut memory, &vec![Value::Long(ptr), Value::Dummy, Value::Integer(-0x7f7f_fefd)]).unwrap();
    let mut heap = Heap::new();
    heap.insert(byte_array(2, 6));
    heap.insert(object(3, vec![]));
    let copy = |dst: u32, n: i64| {
        vec![
            Value::Reference(RefId(0)),
            Value::Long(ptr),
            Value::Dummy,
            Value::Reference(RefId(dst)),
            Value::Long(16),
            Value::Dummy,
            Value::Long(n),
        ]
    };
    assert_eq!(delegate_copy_memory(&mut heap, &mut memory, &copy(2, 4)), Ok(None));
    // bytes come in as ints from 0 to 255
    assert_eq!(ints(&heap, 2), vec![3, 1, 128, 128, 0, 0]);
    assert!(is_validation_error(delegate_copy_memory(&mut heap, &mut memory, &copy(3, 4))));
    assert!(is_validation_error(delegate_copy_memory(&mut heap, &mut memory, &copy(9, 4))));
}

fn class_object_named(heap: &mut Heap, id: u32, name: &str) {
    heap.insert(ReferenceValue::new_array(
        RefId(id + 100),
        ClassId(9),
        "[C".to_string(),
        1,
        FieldType::Primitive(PrimitiveType::Char),
        char_array_of(name),
    ));
    heap.insert(ReferenceValue::new_object(
        RefId(id + 200),
        ClassId(8),
        "java/lang/String".to_string(),
        vec![Value::Reference(RefId(id + 100)), Value::Integer(0)],
    ));
    let mut fields = vec![Value::Reference(RefId(0)); 5];
    fields.push(Value::Reference(RefId(id + 200)));
    heap.insert(ReferenceValue::new_object(RefId(id), ClassId(1), "java/lang/Class".to_string(), fields));
}

#[test]
fn primitive_classes_are_told_by_name() {
    let mut heap = Heap::new();
    class_object_named(&mut heap, 1, "int");
    class_object_named(&mut heap, 2, "void");
    class_object_named(&mut heap, 3, "java.lang.Integer");
    let this = |heap: &Heap, id: u32| delegate_is_primitive(heap, Some(heap.resolve_object_by_id(RefId(id)).unwrap()));
    assert_eq!(this(&heap, 1), Ok(Some(Value::Integer(1))));
    assert_eq!(this(&heap, 2), Ok(Some(Value::Integer(1))));
    assert_eq!(this(&heap, 3), Ok(Some(Value::Integer(0))));
    assert!(is_validation_error(delegate_is_primitive(&heap, None)));
}

#[test]
fn a_read_gives_what_a_put_or_a_swap_stored() {
    let mut heap = Heap::new();
    heap.insert(object(1, vec![Value::Integer(0), Value::Long(0), Value::Dummy]));
    heap.insert(int_array(2, &[0, 0, 0]));
    let read = |o: u32, offset: i64| vec![Value::Reference(RefId(o)), Value::Long(offset)];
    delegate_put_long_volatile(&mut heap, &access(1, 1, Value::Long(77))).unwrap();
    assert_eq!(delegate_get_long_volatile(&heap, &read(1, 1), None), Ok(Some(Value::Long(77))));
    delegate_put_int_volatile(&mut heap, &access(2, 17, Value::Integer(-3))).unwrap();
    assert_eq!(delegate_get_int_volatile(&heap, &read(2, 17), None), Ok(Some(Value::Integer(-3))));
    let swap = vec![Value::Reference(RefId(1)), Value::Long(0), Value::Dummy, Value::Integer(0), Value::Integer(8)];
    assert_eq!(delegate_compare_and_swap_int(&mut heap, &swap), Ok(Some(Value::Integer(1))));
    assert_eq!(delegate_get_int_volatile(&heap, &read(1, 0), None), Ok(Some(Value::Integer(8))));
}
