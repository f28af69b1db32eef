//! `java.lang.Class` natives that read class objects.
use vstd::prelude::*;

use crate::vm::class::same_text;
use crate::vm::heap::Heap;
use crate::vm::native::{non_failing_some, NativeResult};
use crate::vm::strings::{
    array_of, char_array_bytes, dots_to_slashes, extract_class_name_from_class_ref, has_string_fields,
    java_cesu8_text, string_chars, CLASS_NAME_INDEX,
};
use crate::vm::value::{RefId, ReferenceValue, Value};
use crate::vm::VmError;

verus! {

/// True when `name` names one of the primitive types or `void`.
pub open spec fn is_primitive_name(name: Seq<char>) -> bool {
    ||| name == "boolean"@
    ||| name == "char"@
    ||| name == "byte"@
    ||| name == "short"@
    ||| name == "int"@
    ||| name == "long"@
    ||| name == "float"@
    ||| name == "double"@
    ||| name == "void"@
}

/// True when `name` names one of the primitive types or `void`.
pub fn is_primitive_class_name(name: &str) -> (r: bool)
    ensures
        r == is_primitive_name(name@),
{
    same_text(name, "boolean") || same_text(name, "char") || same_text(name, "byte") || same_text(name, "short")
        || same_text(name, "int") || same_text(name, "long") || same_text(name, "float") || same_text(name, "double")
        || same_text(name, "void")
}

/// True when the name field of the class object `o` can be read as a string.
pub open spec fn class_name_readable(heap: Map<RefId, ReferenceValue>, o: ReferenceValue) -> bool {
    &&& !o.spec_is_array()
    &&& CLASS_NAME_INDEX < o.components().len()
    &&& string_chars(heap, o.components()[CLASS_NAME_INDEX as int]) is Some ==> has_string_fields(
        heap[o.components()[CLASS_NAME_INDEX as int]->Reference_0],
    )
}

/// `Class.isPrimitive` on the class object `this`: 1 when its name is that of a primitive
/// type or `void`, 0 otherwise. Without a class object, or when its name cannot be read,
/// it fails as reading the name does.
pub fn delegate_is_primitive(heap: &Heap, this: Option<&ReferenceValue>) -> (r: NativeResult)
    requires
        heap.wf(),
        this matches Some(o) ==> class_name_readable(heap@, *o),
    ensures
        match this {
            Some(o) => match string_chars(heap@, o.components()[CLASS_NAME_INDEX as int]) {
                Some(chars) => match array_of(heap@, chars) {
                    Some(content) => match java_cesu8_text(char_array_bytes(content)) {
                        Some(t) => r == Ok::<Option<Value>, VmError>(
                            Some(Value::Integer(if is_primitive_name(dots_to_slashes(t)) { 1 } else { 0 })),
                        ),
                        None => r matches Err(VmError::CESU8Error),
                    },
                    None => r matches Err(VmError::ValidationError(_)),
                },
                None => r matches Err(VmError::ValidationError(_)),
            },
            None => r matches Err(VmError::ValidationError(_)),
        },
{
    if let Some(class_ref) = this {
        let name = extract_class_name_from_class_ref(heap, class_ref)?;
        non_failing_some(Value::Integer(if is_primitive_class_name(name.as_str()) { 1 } else { 0 }))
    } else {
        Err(VmError::ValidationError("this is Null".to_string()))
    }
}

} // verus!
