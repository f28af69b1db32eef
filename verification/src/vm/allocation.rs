//! Creating objects and arrays on the heap. Which identity a new object gets is the
//! allocator's choice, and loading the class of an array is the class manager's work:
//! both reach these functions as arguments.
use vstd::prelude::*;

use crate::field_info::{FieldType, PrimitiveType};
use crate::vm::class::{default_value, spec_default_value, Class, ClassId};
use crate::vm::heap::Heap;
use crate::vm::value::{RefId, ReferenceValue, Value};

verus! {

/// The component type of the array that `NEWARRAY` creates for the type code `atype`, if
/// the code is one that the instruction knows.
pub open spec fn spec_newarray_type(atype: u8) -> Option<PrimitiveType> {
    if atype == 4 {
        Some(PrimitiveType::Boolean)
    } else if atype == 5 {
        Some(PrimitiveType::Char)
    } else if atype == 6 {
        Some(PrimitiveType::Float)
    } else if atype == 7 {
        Some(PrimitiveType::Double)
    } else if atype == 8 {
        Some(PrimitiveType::Byte)
    } else if atype == 9 {
        Some(PrimitiveType::Short)
    } else if atype == 10 {
        Some(PrimitiveType::Integer)
    } else if atype == 11 {
        Some(PrimitiveType::Long)
    } else {
        None
    }
}

/// The component type of the array that `NEWARRAY` creates for the type code `atype`;
/// none for a code that the instruction does not know.
pub fn newarray_type(atype: u8) -> (r: Option<PrimitiveType>)
    ensures
        r == spec_newarray_type(atype),
{
    match atype {
        4 => Some(PrimitiveType::Boolean),
        5 => Some(PrimitiveType::Char),
        6 => Some(PrimitiveType::Float),
        7 => Some(PrimitiveType::Double),
        8 => Some(PrimitiveType::Byte),
        9 => Some(PrimitiveType::Short),
        10 => Some(PrimitiveType::Integer),
        11 => Some(PrimitiveType::Long),
        _ => None,
    }
}

/// True when `new` is `old` with `object` filed under its identity `id`.
pub open spec fn filed(old: Map<RefId, ReferenceValue>, new: Map<RefId, ReferenceValue>, id: RefId, object: ReferenceValue) -> bool {
    &&& object.spec_id() == id
    &&& new == old.insert(id, object)
}

/// Creates an object of `class` under the identity `id`: its fields, the superclasses'
/// first, start with their constant values or the zero of their type. Files it on the
/// heap and gives the reference to it.
pub fn allocate_object(heap: &mut Heap, class: &Class, id: RefId) -> (r: Value)
    requires
        old(heap).wf(),
        class.fields_loadable(),
        class.depth() < usize::MAX,
    ensures
        final(heap).wf(),
        r == Value::Reference(id),
        final(heap)@.contains_key(id),
        filed(old(heap)@, final(heap)@, id, final(heap)@[id]),
        !final(heap)@[id].spec_is_array(),
        final(heap)@[id].components() == class.spec_fields(),
        final(heap)@[id].spec_class_id() == class.id,
        final(heap)@[id].spec_class_name() == class.name@,
{
    let fields = class.get_fields();
    let object = ReferenceValue::new_object(id, class.id, class.name.clone(), fields);
    heap.insert(object);
    Value::Reference(id)
}

/// Creates a one-dimensional array of `count` elements of `component`, each the zero of
/// that type, under the identity `id`, as an instance of the array class `class_id`
/// named `class_name`. Files it on the heap and gives the reference to it. A negative
/// count panics; that is left out by the precondition.
pub fn allocate_array(
    heap: &mut Heap,
    id: RefId,
    class_id: ClassId,
    class_name: String,
    component: FieldType,
    count: i32,
) -> (r: Value)
    requires
        old(heap).wf(),
        count >= 0,
    ensures
        final(heap).wf(),
        r == Value::Reference(id),
        final(heap)@.contains_key(id),
        filed(old(heap)@, final(heap)@, id, final(heap)@[id]),
        final(heap)@[id].spec_is_array(),
        final(heap)@[id].components() == Seq::new(count as nat, |i: int| spec_default_value(component)),
        final(heap)@[id].spec_class_id() == class_id,
        final(heap)@[id].spec_class_name() == class_name@,
        forall|p: PrimitiveType| #[trigger] final(heap)@[id].spec_is_array_of(p) <==> component == FieldType::Primitive(p),
{
    let zero = default_value(&component);
    let n = count as usize;
    let mut content: Vec<Value> = Vec::new();
    let mut i: usize = 0;
    while i < n
        invariant
            i <= n,
            n == count as nat,
            zero == spec_default_value(component),
            content@ == Seq::new(i as nat, |k: int| spec_default_value(component)),
        decreases n - i,
    {
        content.push(zero);
        i = i + 1;
        assert(content@ =~= Seq::new(i as nat, |k: int| spec_default_value(component)));
    }
    let array = ReferenceValue::new_array(id, class_id, class_name, 1, component, content);
    heap.insert(array);
    Value::Reference(id)
}

} // verus!
