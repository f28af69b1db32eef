//! What a heap object shows of itself in a debug report: one piece per component, with
//! the text of strings, char arrays and class objects read out of the heap. Turning the
//! pieces into text (numbers in decimal or hex) is left to the report.
use vstd::prelude::*;

use crate::field_info::PrimitiveType;
use crate::vm::heap::Heap;
use crate::vm::native::java_lang_class::class_name_readable;
use crate::vm::strings::{
    array_of, char_array_bytes, dots_to_slashes, extract_class_name_from_class_ref, extract_string_from_char_arr,
    extract_string_from_ref, has_string_fields, java_cesu8_text, string_chars, CLASS_NAME_INDEX,
    STRING_VALUE_INDEX,
};
use crate::vm::value::{RefId, ReferenceValue, Value};
use crate::vm::VmError;

verus! {

/// One piece of a heap object's report.
#[derive(Debug, PartialEq, Clone)]
pub enum Printable {
    /// The null reference.
    Null,
    /// A reference to another object: its id, class name and class id, and for a string,
    /// a `char[]` or a class object the text it holds (`VMError` where that cannot be
    /// read).
    Object(u32, String, u32, Option<String>),
    /// A value other than a reference, shown as it is.
    Value(Value),
    /// Text: the characters of a `char[]`, or the content of a string.
    Text(String),
    /// An int element of a `byte[]`, shown in hex.
    Hex(i32),
    /// A run of this many null elements.
    Nulls(usize),
}

/// The character that the code `u` stands for, if it is a Unicode scalar value, with
/// `char::from_u32`.
#[verifier::external_body]
fn char_from_u32(u: u32) -> (r: Option<char>)
    ensures
        r is Some <==> (u < 0xD800 || (0xE000 <= u && u <= 0x10FFFF)),
        r matches Some(c) ==> c as u32 == u,
{
    char::from_u32(u)
}

/// Appends `c` to `s`, with `String::push`.
#[verifier::external_body]
fn push_char(s: &mut String, c: char)
    ensures
        final(s)@ == old(s)@.push(c),
{
    s.push(c)
}

/// The text, or `VMError` where there is none.
pub open spec fn text_or_error(t: Option<Seq<char>>) -> Seq<char> {
    match t {
        Some(x) => x,
        None => "VMError"@,
    }
}

/// The text of the `char[]` that `chars` refers to, if it can be read.
pub open spec fn char_array_text(heap: Map<RefId, ReferenceValue>, chars: Value) -> Option<Seq<char>> {
    match array_of(heap, chars) {
        Some(content) => java_cesu8_text(char_array_bytes(content)),
        None => None,
    }
}

/// The name, with `/` between its parts, of the class that the class object `o` stands
/// for, if it can be read.
pub open spec fn class_object_name(heap: Map<RefId, ReferenceValue>, o: ReferenceValue) -> Option<Seq<char>> {
    match string_chars(heap, o.components()[CLASS_NAME_INDEX as int]) {
        Some(chars) => match char_array_text(heap, chars) {
            Some(t) => Some(dots_to_slashes(t)),
            None => None,
        },
        None => None,
    }
}

/// True when the component `v` can be reported without panicking: a reference other than
/// null is to an object of the heap, whose text can be looked for where it has one.
pub open spec fn field_printable(heap: Map<RefId, ReferenceValue>, v: Value) -> bool {
    match v {
        Value::Reference(id) => id.0 != 0 ==> {
            &&& heap.contains_key(id)
            &&& heap[id].spec_class_name() == "java/lang/String"@ ==> has_string_fields(heap[id])
            &&& heap[id].spec_class_name() == "java/lang/Class"@ ==> class_name_readable(heap, heap[id])
        },
        _ => true,
    }
}

/// True when `p` reports the component `v`.
pub open spec fn field_printed(heap: Map<RefId, ReferenceValue>, v: Value, p: Printable) -> bool {
    match v {
        Value::Reference(id) => if id.0 == 0 {
            p is Null
        } else {
            let o = heap[id];
            p matches Printable::Object(pid, cn, cid, text) && pid == id.0 && cn@ == o.spec_class_name() && cid
                == o.spec_class_id().0 && if o.spec_class_name() == "java/lang/String"@ {
                text matches Some(t) && t@ == text_or_error(
                    char_array_text(heap, o.components()[STRING_VALUE_INDEX as int]),
                )
            } else if o.spec_class_name() == "[C"@ {
                text matches Some(t) && t@ == text_or_error(char_array_text(heap, v))
            } else if o.spec_class_name() == "java/lang/Class"@ {
                text matches Some(t) && t@ == text_or_error(class_object_name(heap, o))
            } else {
                text is None
            }
        },
        _ => p == Printable::Value(v),
    }
}

/// The text a read hands back, or `VMError`.
fn text_of(r: Result<String, VmError>) -> (t: String)
    ensures
        match r {
            Ok(s) => t@ == s@,
            Err(_) => t@ == "VMError"@,
        },
{
    match r {
        Ok(s) => s,
        Err(_) => "VMError".to_owned(),
    }
}

/// The report of one component.
fn print_field(heap: &Heap, v: Value) -> (p: Printable)
    requires
        heap.wf(),
        field_printable(heap@, v),
    ensures
        field_printed(heap@, v, p),
{
    match v {
        Value::Reference(id) => {
            if id.is_null() {
                return Printable::Null;
            }
            let rv = match heap.resolve_object_by_id(id) {
                Ok(o) => o,
                Err(_) => {
                    return Printable::Null;
                },
            };
            proof {
                heap.lemma_wf();
            }
            let name = rv.class_name();
            let text = if same_name(name, "java/lang/String") {
                Some(text_of(extract_string_from_ref(heap, rv)))
            } else if same_name(name, "[C") {
                Some(text_of(extract_string_from_char_arr(heap, v)))
            } else if same_name(name, "java/lang/Class") {
                Some(text_of(extract_class_name_from_class_ref(heap, rv)))
            } else {
                None
            };
            Printable::Object(id.0, name.to_owned(), rv.class_id().0, text)
        },
        _ => Printable::Value(v),
    }
}

/// True when the two texts are equal.
fn same_name(a: &str, b: &str) -> (r: bool)
    ensures
        r == (a@ == b@),
{
    crate::vm::class::same_text(a, b)
}

/// One piece of the report of an array other than a `char[]` or `byte[]`: a run of null
/// elements, or an element.
pub ghost enum Piece {
    NullRun(nat),
    Element(Value),
}

/// The pieces of the elements `vs` so far, and the length of the run of nulls they end
/// with, which is not among the pieces yet.
pub open spec fn runs(vs: Seq<Value>) -> (Seq<Piece>, nat)
    decreases vs.len(),
{
    if vs.len() == 0 {
        (Seq::empty(), 0)
    } else {
        let (out, count) = runs(vs.drop_last());
        let v = vs.last();
        if v matches Value::Reference(id) && id.0 == 0 {
            (out, count + 1)
        } else if count > 0 {
            (out.push(Piece::NullRun(count)).push(Piece::Element(v)), 0)
        } else {
            (out.push(Piece::Element(v)), 0)
        }
    }
}

/// The pieces of the elements `vs`: runs of nulls stand as their length, every other
/// element as itself.
pub open spec fn compressed(vs: Seq<Value>) -> Seq<Piece> {
    let (out, count) = runs(vs);
    if count > 0 {
        out.push(Piece::NullRun(count))
    } else {
        out
    }
}

/// True when `p` reports the piece `q`.
pub open spec fn piece_printed(heap: Map<RefId, ReferenceValue>, q: Piece, p: Printable) -> bool {
    match q {
        Piece::NullRun(n) => p == Printable::Nulls(n as usize),
        Piece::Element(v) => field_printed(heap, v, p),
    }
}

/// True when `ch` is what a `char[]` element `v` shows as: the character of its code,
/// `?` for a value that is no int.
pub open spec fn char_shown(v: Value, ch: char) -> bool {
    match v {
        Value::Integer(c) => ch as u32 == c as u32,
        _ => ch == '?',
    }
}

/// True when every int element of a `char[]` is the code of a character; converting
/// another one panics.
pub open spec fn chars_valid(vs: Seq<Value>) -> bool {
    forall|i: int|
        0 <= i < vs.len() ==> (#[trigger] vs[i] matches Value::Integer(c) ==> ((c as u32) < 0xD800 || (0xE000
            <= (c as u32) && (c as u32) <= 0x10FFFF)))
}

/// True when the object `r` can be reported without panicking.
pub open spec fn printable(heap: Map<RefId, ReferenceValue>, r: ReferenceValue) -> bool {
    if r.spec_is_array() {
        if r.spec_is_array_of(PrimitiveType::Char) {
            chars_valid(r.components())
        } else if r.spec_is_array_of(PrimitiveType::Byte) {
            true
        } else {
            forall|i: int| 0 <= i < r.components().len() ==> field_printable(heap, #[trigger] r.components()[i])
        }
    } else if r.spec_class_name() == "java/lang/String"@ {
        &&& has_string_fields(r)
        &&& forall|i: int| 1 <= i < r.components().len() ==> field_printable(heap, #[trigger] r.components()[i])
    } else {
        forall|i: int| 0 <= i < r.components().len() ==> field_printable(heap, #[trigger] r.components()[i])
    }
}

/// The report of the components of the heap object `r`. A string shows its content
/// first, then its other fields; another object each of its fields. A `char[]` shows as
/// one text; a `byte[]` as its int elements in hex; another array as its elements, each
/// run of nulls shown as its length.
pub fn components_printable(heap: &Heap, r: &ReferenceValue) -> (s: Vec<Printable>)
    requires
        heap.wf(),
        printable(heap@, *r),
    ensures
        ({
            let c = r.components();
            if r.spec_is_array() {
                if r.spec_is_array_of(PrimitiveType::Char) {
                    s@.len() == 1 && (s@[0] matches Printable::Text(t) && t@.len() == c.len() && forall|i: int|
                        0 <= i < c.len() ==> char_shown(c[i], #[trigger] t@[i]))
                } else if r.spec_is_array_of(PrimitiveType::Byte) {
                    &&& s@.len() == c.len()
                    &&& forall|i: int|
                        0 <= i < c.len() ==> #[trigger] s@[i] == match c[i] {
                            Value::Integer(b) => Printable::Hex(b),
                            v => Printable::Value(v),
                        }
                } else {
                    &&& s@.len() == compressed(c).len()
                    &&& forall|i: int|
                        0 <= i < s@.len() ==> piece_printed(heap@, #[trigger] compressed(c)[i], s@[i])
                }
            } else if r.spec_class_name() == "java/lang/String"@ {
                &&& s@.len() == c.len()
                &&& s@[0] matches Printable::Text(t) && t@ == text_or_error(
                    char_array_text(heap@, c[STRING_VALUE_INDEX as int]),
                )
                &&& forall|i: int| 1 <= i < c.len() ==> field_printed(heap@, c[i], #[trigger] s@[i])
            } else {
                &&& s@.len() == c.len()
                &&& forall|i: int| 0 <= i < c.len() ==> field_printed(heap@, c[i], #[trigger] s@[i])
            }
        }),
{
    let ghost c = r.components();
    let mut out: Vec<Printable> = Vec::new();
    if r.is_array() {
        let n = r.get_length();
        if r.is_array_of(PrimitiveType::Char) {
            let mut text = String::new();
            let mut i: usize = 0;
            while i < n
                invariant
                    r.spec_is_array(),
                    n == c.len(),
                    c == r.components(),
                    chars_valid(c),
                    i <= n,
                    text@.len() == i,
                    forall|j: int| 0 <= j < i ==> char_shown(c[j], #[trigger] text@[j]),
                decreases n - i,
            {
                let ch = match r.get_element(i) {
                    Value::Integer(code) => match char_from_u32(code as u32) {
                        Some(ch) => ch,
                        None => {
                            proof {
                                assert(c[i as int] matches Value::Integer(x) ==> ((x as u32) < 0xD800 || (0xE000
                                    <= (x as u32) && (x as u32) <= 0x10FFFF)));
                            }
                            '?'
                        },
                    },
                    _ => '?',
                };
                push_char(&mut text, ch);
                proof {
                    assert(char_shown(c[i as int], ch));
                }
                i = i + 1;
            }
            out.push(Printable::Text(text));
            return out;
        }
        if r.is_array_of(PrimitiveType::Byte) {
            let mut i: usize = 0;
            while i < n
                invariant
                    r.spec_is_array(),
                    n == c.len(),
                    c == r.components(),
                    i <= n,
                    out@.len() == i,
                    forall|j: int|
                        0 <= j < i ==> #[trigger] out@[j] == match c[j] {
                            Value::Integer(b) => Printable::Hex(b),
                            v => Printable::Value(v),
                        },
                decreases n - i,
            {
                let p = match r.get_element(i) {
                    Value::Integer(b) => Printable::Hex(b),
                    v => Printable::Value(v),
                };
                out.push(p);
                i = i + 1;
            }
            return out;
        }
        let mut null_counter: usize = 0;
        let mut i: usize = 0;
        while i < n
            invariant
                heap.wf(),
                r.spec_is_array(),
                n == c.len(),
                c == r.components(),
                forall|j: int| 0 <= j < c.len() ==> field_printable(heap@, #[trigger] c[j]),
                i <= n,
                null_counter <= i,
                runs(c.take(i as int)).1 == null_counter,
                out@.len() == runs(c.take(i as int)).0.len(),
                forall|j: int|
                    0 <= j < out@.len() ==> piece_printed(heap@, #[trigger] runs(c.take(i as int)).0[j], out@[j]),
            decreases n - i,
        {
            let value = r.get_element(i);
            let ghost before = runs(c.take(i as int));
            let ghost old_out = out@;
            assert(c.take(i + 1).drop_last() =~= c.take(i as int));
            if value.is_null() {
                null_counter = null_counter + 1;
            } else {
                if null_counter > 0 {
                    out.push(Printable::Nulls(null_counter));
                    null_counter = 0;
                }
                let p = print_field(heap, value);
                out.push(p);
            }
            proof {
                let after = runs(c.take(i + 1));
                assert forall|j: int| 0 <= j < out@.len() implies piece_printed(
                    heap@,
                    #[trigger] after.0[j],
                    out@[j],
                ) by {
                    if j < old_out.len() {
                        assert(after.0[j] == before.0[j]);
                        assert(out@[j] == old_out[j]);
                    }
                }
            }
            i = i + 1;
        }
        assert(c.take(n as int) =~= c);
        if null_counter > 0 {
            out.push(Printable::Nulls(null_counter));
        }
        return out;
    }
    let n = r.component_count();
    let mut i: usize = 0;
    if same_name(r.class_name(), "java/lang/String") {
        let chars = r.get_field(STRING_VALUE_INDEX);
        out.push(Printable::Text(text_of(extract_string_from_char_arr(heap, chars))));
        i = 1;
    }
    while i < n
        invariant
            heap.wf(),
            !r.spec_is_array(),
            n == c.len(),
            c == r.components(),
            r.spec_class_name() == "java/lang/String"@ ==> (has_string_fields(*r) && 1 <= i && (out@[0] matches Printable::Text(t) && t@ == text_or_error(
                char_array_text(heap@, c[STRING_VALUE_INDEX as int]),
            ))),
            r.spec_class_name() != "java/lang/String"@ ==> forall|j: int|
                0 <= j < c.len() ==> field_printable(heap@, #[trigger] c[j]),
            r.spec_class_name() == "java/lang/String"@ ==> forall|j: int|
                1 <= j < c.len() ==> field_printable(heap@, #[trigger] c[j]),
            i <= n,
            out@.len() == i,
            forall|j: int|
                (if r.spec_class_name() == "java/lang/String"@ { 1int } else { 0int }) <= j < i ==> field_printed(
                    heap@,
                    c[j],
                    #[trigger] out@[j],
                ),
        decreases n - i,
    {
        let p = print_field(heap, r.get_field(i));
        out.push(p);
        i = i + 1;
    }
    out
}

} // verus!
