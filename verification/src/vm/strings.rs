use vstd::prelude::*;

use crate::vm::heap::Heap;
use crate::vm::value::{RefId, ReferenceValue, Value};
use crate::vm::VmError;

verus! {

/// The error of the `cesu8` crate: the bytes are no valid modified UTF-8.
#[verifier::external_type_specification]
#[verifier::external_body]
pub struct ExCesu8DecodingError(cesu8::Cesu8DecodingError);

/// The text that Java's modified UTF-8 encoding of `bytes` stands for; none when the
/// bytes are no such encoding.
pub uninterp spec fn java_cesu8_text(bytes: Seq<u8>) -> Option<Seq<char>>;

/// True when every byte is an ASCII character.
pub open spec fn all_ascii(bytes: Seq<u8>) -> bool {
    forall|i: int| 0 <= i < bytes.len() ==> bytes[i] < 128
}

/// The characters that ASCII bytes stand for.
pub open spec fn ascii_text(bytes: Seq<u8>) -> Seq<char> {
    bytes.map_values(|b: u8| (b as u32) as char)
}

/// Decodes Java's modified UTF-8 with `cesu8::from_java_cesu8`. The crate returns the
/// bytes unchanged when they are valid UTF-8, which ASCII bytes are; its other results
/// are named by `java_cesu8_text`, not stated.
#[verifier::external_body]
fn decode_java_cesu8(bytes: &[u8]) -> (r: Result<String, cesu8::Cesu8DecodingError>)
    ensures
        match r {
            Ok(s) => java_cesu8_text(bytes@) == Some(s@),
            Err(_) => java_cesu8_text(bytes@) is None,
        },
        all_ascii(bytes@) ==> (r is Ok && r->Ok_0@ == ascii_text(bytes@)),
{
    match cesu8::from_java_cesu8(bytes) {
        Ok(text) => Ok(text.into_owned()),
        Err(e) => Err(e),
    }
}

/// The bytes a `char[]` holds as the machine reads a string out of it: the low byte of
/// each int element, and 0 for any other element.
pub open spec fn char_array_bytes(content: Seq<Value>) -> Seq<u8> {
    content.map_values(|v: Value| match v {
        Value::Integer(c) => c as u8,
        _ => 0u8,
    })
}

/// The text of a Java string whose `char[]` holds `content`, decoded as modified UTF-8.
pub fn string_from_char_array(content: &[Value]) -> (r: Result<String, VmError>)
    ensures
        match java_cesu8_text(char_array_bytes(content@)) {
            Some(t) => r matches Ok(s) && s@ == t,
            None => r matches Err(VmError::CESU8Error),
        },
        all_ascii(char_array_bytes(content@)) ==> (r is Ok && r->Ok_0@ == ascii_text(
            char_array_bytes(content@),
        )),
{
    let mut bytes: Vec<u8> = Vec::new();
    let mut i: usize = 0;
    while i < content.len()
        invariant
            i <= content@.len(),
            bytes@ == char_array_bytes(content@.take(i as int)),
        decreases content@.len() - i,
    {
        let b: u8 = match content[i] {
            Value::Integer(c) => c as u8,
            _ => 0,
        };
        bytes.push(b);
        i = i + 1;
        assert(bytes@ =~= char_array_bytes(content@.take(i as int)));
    }
    assert(content@.take(content@.len() as int) =~= content@);
    match decode_java_cesu8(bytes.as_slice()) {
        Ok(s) => Ok(s),
        Err(_) => Err(VmError::CESU8Error),
    }
}

/// The elements of the `char[]` of a new Java string: one int per character, its code
/// point.
pub open spec fn spec_char_array_of(text: Seq<char>) -> Seq<Value> {
    text.map_values(|c: char| Value::Integer((c as u32) as i32))
}

/// The elements of the `char[]` of a new Java string holding `text`.
pub fn char_array_of(text: &str) -> (r: Vec<Value>)
    ensures
        r@ == spec_char_array_of(text@),
{
    let n = text.unicode_len();
    let mut r: Vec<Value> = Vec::new();
    let mut i: usize = 0;
    while i < n
        invariant
            n == text@.len(),
            i <= n,
            r@ == spec_char_array_of(text@.take(i as int)),
        decreases n - i,
    {
        let c = text.get_char(i);
        r.push(Value::Integer(c as u32 as i32));
        i = i + 1;
        assert(r@ =~= spec_char_array_of(text@.take(i as int)));
    }
    assert(text@.take(n as int) =~= text@);
    r
}

/// A string made of ASCII characters reads back from the `char[]` it was stored in as
/// the same text.
pub proof fn law_ascii_string_round_trip(text: Seq<char>)
    requires
        forall|i: int| 0 <= i < text.len() ==> (text[i] as u32) < 128,
    ensures
        all_ascii(char_array_bytes(spec_char_array_of(text))),
        ascii_text(char_array_bytes(spec_char_array_of(text))) == text,
{
    let bytes = char_array_bytes(spec_char_array_of(text));
    assert forall|i: int| 0 <= i < text.len() implies bytes[i] < 128 && ((bytes[i] as u32) as char)
        == text[i] by {
        let u: u32 = text[i] as u32;
        assert(u < 128);
        assert((u as i32) as u8 == u && u < 128) by (bit_vector)
            requires
                u < 128,
        ;
        assert(bytes[i] == (u as i32) as u8);
        assert(bytes[i] as u32 == u);
        vstd::utf8::char_u32_cast(text[i], u);
    }
    assert(ascii_text(bytes) =~= text);
}

/// `text` with every `.` made a `/`.
pub open spec fn dots_to_slashes(text: Seq<char>) -> Seq<char> {
    text.map_values(|c: char| if c == '.' { '/' } else { c })
}

/// `text` with every `.` made a `/`, as class names are written inside the machine.
pub fn replace_dots(text: &str) -> (r: String)
    ensures
        r@ == dots_to_slashes(text@),
{
    let n = text.unicode_len();
    let mut r = String::new();
    let mut i: usize = 0;
    while i < n
        invariant
            n == text@.len(),
            i <= n,
            r@ == dots_to_slashes(text@.take(i as int)),
        decreases n - i,
    {
        let c = text.get_char(i);
        if c == '.' {
            r.append("/");
            proof {
                reveal_strlit("/");
            }
        } else {
            let piece = text.substring_char(i, i + 1);
            r.append(piece);
        }
        assert(r@ =~= dots_to_slashes(text@.take(i + 1)));
        i = i + 1;
    }
    assert(text@.take(n as int) =~= text@);
    r
}

/// The field of a `java/lang/String` object that holds its `char[]`.
pub const STRING_VALUE_INDEX: usize = 0;

/// The field of a `java/lang/Class` object that holds its name, a string.
pub const CLASS_NAME_INDEX: usize = 5;

/// The field of a `java/lang/Long` object that holds its value.
pub const LONG_VALUE_INDEX: usize = 0;

/// The elements of the array that `v` refers to, when it refers to an array of the heap.
pub open spec fn array_of(heap: Map<RefId, ReferenceValue>, v: Value) -> Option<Seq<Value>> {
    match v {
        Value::Reference(id) => if heap.contains_key(id) && heap[id].spec_is_array() {
            Some(heap[id].components())
        } else {
            None
        },
        _ => None,
    }
}

/// True when `r` is what reading the text of the `char[]` `chars` gives: its text, an
/// error when the bytes are no modified UTF-8, or a validation error when `chars` is no
/// array.
pub open spec fn string_read(heap: Map<RefId, ReferenceValue>, chars: Value, r: Result<String, VmError>) -> bool {
    match array_of(heap, chars) {
        Some(content) => match java_cesu8_text(char_array_bytes(content)) {
            Some(t) => r matches Ok(s) && s@ == t,
            None => r matches Err(VmError::CESU8Error),
        },
        None => r matches Err(VmError::ValidationError(_)),
    }
}

/// The `char[]` field of the string that `v` refers to, when it refers to an object of
/// the heap other than null.
pub open spec fn string_chars(heap: Map<RefId, ReferenceValue>, v: Value) -> Option<Value> {
    match v {
        Value::Reference(id) => if id.0 != 0 && heap.contains_key(id) {
            Some(heap[id].components()[STRING_VALUE_INDEX as int])
        } else {
            None
        },
        _ => None,
    }
}

/// True when a string object has the `char[]` field; reading a string out of an object
/// without it panics.
pub open spec fn has_string_fields(o: ReferenceValue) -> bool {
    !o.spec_is_array() && STRING_VALUE_INDEX < o.components().len()
}

/// The text of the `char[]` that `chars` refers to.
pub fn extract_string_from_char_arr(heap: &Heap, chars: Value) -> (r: Result<String, VmError>)
    requires
        heap.wf(),
    ensures
        string_read(heap@, chars, r),
{
    if let Value::Reference(char_arr_id) = chars {
        let char_ref = heap.resolve_object_by_id(char_arr_id)?;
        if char_ref.is_array() {
            let n = char_ref.get_length();
            let mut content: Vec<Value> = Vec::new();
            let mut i: usize = 0;
            while i < n
                invariant
                    char_ref.spec_is_array(),
                    n == char_ref.components().len(),
                    i <= n,
                    content@ == char_ref.components().take(i as int),
                decreases n - i,
            {
                content.push(char_ref.get_element(i));
                i = i + 1;
                assert(content@ =~= char_ref.components().take(i as int));
            }
            assert(char_ref.components().take(n as int) =~= char_ref.components());
            return string_from_char_array(content.as_slice());
        }
    }
    Err(VmError::ValidationError("Expected CharArray".to_string()))
}

/// The text of the string that `value` refers to. Anything but a reference to a string
/// object of the heap is refused with a validation error.
pub fn extract_string_from_value(heap: &Heap, value: Value) -> (r: Result<String, VmError>)
    requires
        heap.wf(),
        string_chars(heap@, value) is Some ==> has_string_fields(heap@[value->Reference_0]),
    ensures
        match string_chars(heap@, value) {
            Some(chars) => string_read(heap@, chars, r),
            None => r matches Err(VmError::ValidationError(_)),
        },
{
    if let Value::Reference(ref_id) = value {
        if !ref_id.is_null() {
            let string_ref = heap.resolve_object_by_id(ref_id)?;
            let chars = string_ref.get_field(STRING_VALUE_INDEX);
            return extract_string_from_char_arr(heap, chars);
        }
    }
    Err(VmError::ValidationError("Expected String Object".to_string()))
}

/// The text of the string object `string_ref`; the null object is refused with a
/// validation error.
pub fn extract_string_from_ref(heap: &Heap, string_ref: &ReferenceValue) -> (r: Result<String, VmError>)
    requires
        heap.wf(),
        string_ref.spec_id().0 != 0 ==> has_string_fields(*string_ref),
    ensures
        string_ref.spec_id().0 == 0 ==> r matches Err(VmError::ValidationError(_)),
        string_ref.spec_id().0 != 0 ==> string_read(heap@, string_ref.components()[STRING_VALUE_INDEX as int], r),
{
    if string_ref.is_null() {
        return Err(VmError::ValidationError("Expected String Reference but was null".to_string()));
    }
    let chars = string_ref.get_field(STRING_VALUE_INDEX);
    extract_string_from_char_arr(heap, chars)
}

/// The name of the class that the class object `object` stands for, with `/` between
/// its parts.
pub fn extract_class_name_from_class_ref(heap: &Heap, object: &ReferenceValue) -> (r: Result<String, VmError>)
    requires
        heap.wf(),
        !object.spec_is_array(),
        CLASS_NAME_INDEX < object.components().len(),
        string_chars(heap@, object.components()[CLASS_NAME_INDEX as int]) is Some ==> has_string_fields(
            heap@[object.components()[CLASS_NAME_INDEX as int]->Reference_0],
        ),
    ensures
        match string_chars(heap@, object.components()[CLASS_NAME_INDEX as int]) {
            Some(chars) => match array_of(heap@, chars) {
                Some(content) => match java_cesu8_text(char_array_bytes(content)) {
                    Some(t) => r matches Ok(s) && s@ == dots_to_slashes(t),
                    None => r matches Err(VmError::CESU8Error),
                },
                None => r matches Err(VmError::ValidationError(_)),
            },
            None => r matches Err(VmError::ValidationError(_)),
        },
{
    let name_object = object.get_field(CLASS_NAME_INDEX);
    let name = extract_string_from_value(heap, name_object)?;
    Ok(replace_dots(name.as_str()))
}

/// The value of the `java/lang/Long` object that `value` refers to. Anything but a
/// reference to an object of the heap whose value field holds a long is refused with a
/// validation error.
pub fn extract_long(heap: &Heap, value: Value) -> (r: Result<Value, VmError>)
    requires
        heap.wf(),
        match value {
            Value::Reference(id) => heap@.contains_key(id) && !heap@[id].spec_is_array() ==> LONG_VALUE_INDEX
                < heap@[id].components().len(),
            _ => true,
        },
    ensures
        match value {
            Value::Reference(id) => if heap@.contains_key(id) && !heap@[id].spec_is_array()
                && heap@[id].components()[LONG_VALUE_INDEX as int] is Long {
                r == Ok::<Value, VmError>(heap@[id].components()[LONG_VALUE_INDEX as int])
            } else {
                r matches Err(VmError::ValidationError(_))
            },
            _ => r matches Err(VmError::ValidationError(_)),
        },
{
    if let Value::Reference(long_id) = value {
        let long_ref = heap.resolve_object_by_id(long_id)?;
        let v = long_ref.get_long_field(LONG_VALUE_INDEX)?;
        Ok(Value::Long(v))
    } else {
        Err(VmError::ValidationError("expected a long reference".to_string()))
    }
}

} // verus!
