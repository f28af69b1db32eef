//! `sun.misc.Unsafe` natives: raw access to the fields and elements of heap objects by
//! offset, and to native memory by address.
use vstd::prelude::*;

use crate::vm::class::same_text;
use crate::vm::heap::Heap;
use crate::vm::native::{arg, get_arg, java_bool, non_failing_none, non_failing_some, NativeResult};
use crate::vm::unsafe_memory::memory_chunk::aligned_size;
use crate::vm::unsafe_memory::{as_signed, le_bytes, le_value, unsigned_part, Unsafe};
use crate::vm::value::{RefId, ReferenceValue, Value};
use crate::vm::VmError;

verus! {

/// The offset at which the elements of an array start; the fields of an object start at 0.
pub const ARRAY_BASE_OFFSET: usize = 16;

/// The size of a page of native memory.
pub const PAGE_SIZE: i32 = 4096;

/// The component of `o` that `offset` names.
pub open spec fn slot(o: ReferenceValue, offset: i64) -> int {
    if o.spec_is_array() {
        offset - ARRAY_BASE_OFFSET
    } else {
        offset as int
    }
}

/// True when `offset` names a component of `o`; any other offset panics.
pub open spec fn slot_in_bounds(o: ReferenceValue, offset: i64) -> bool {
    0 <= offset <= usize::MAX && 0 <= slot(o, offset) < o.components().len()
}

/// True when `o` is a `java/lang/Class` object, which stands for a class.
pub open spec fn is_class_object(o: ReferenceValue) -> bool {
    o.spec_class_name() == "java/lang/Class"@
}

/// The object and offset of an access, when the first two arguments are a reference and
/// a long.
pub open spec fn access_target(args: Seq<Value>) -> Option<(RefId, i64)> {
    match (arg(args, 0), arg(args, 1)) {
        (Some(Value::Reference(o)), Some(Value::Long(offset))) => Some((o, offset)),
        _ => None,
    }
}

/// True when `new` is `old` with the component at `offset` of the object `o` set to `v`,
/// and every other object unchanged.
pub open spec fn stored(
    old: Map<RefId, ReferenceValue>,
    new: Map<RefId, ReferenceValue>,
    o: RefId,
    offset: i64,
    v: Value,
) -> bool {
    &&& new.dom() == old.dom()
    &&& ReferenceValue::updated(&old[o], &new[o], slot(old[o], offset), v)
    &&& forall|other: RefId| other != o ==> #[trigger] new.index(other) == old.index(other)
}

/// Sets the component at `offset` of the object `o`.
fn store(heap: &mut Heap, o: RefId, is_array: bool, offset: i64, v: Value)
    requires
        old(heap).wf(),
        old(heap)@.contains_key(o),
        is_array == old(heap)@[o].spec_is_array(),
        slot_in_bounds(old(heap)@[o], offset),
    ensures
        final(heap).wf(),
        stored(old(heap)@, final(heap)@, o, offset, v),
{
    if is_array {
        heap.set_element(o, offset as usize - ARRAY_BASE_OFFSET, v);
    } else {
        heap.set_field(o, offset as usize, v);
    }
}

/// The component at `offset` of `o`.
fn load(o: &ReferenceValue, offset: i64) -> (r: Value)
    requires
        slot_in_bounds(*o, offset),
    ensures
        r == o.components()[slot(*o, offset)],
{
    if o.is_array() {
        o.get_element(offset as usize - ARRAY_BASE_OFFSET)
    } else {
        o.get_field(offset as usize)
    }
}

/// `Unsafe.arrayBaseOffset`: the offset of the first element, the same for every array
/// class.
pub fn delegate_array_base_offset(args: &Vec<Value>) -> (r: NativeResult)
    ensures
        match arg(args@, 0) {
            Some(Value::Reference(_)) => r == Ok::<Option<Value>, VmError>(Some(Value::Integer(16))),
            _ => r matches Err(VmError::ValidationError(_)),
        },
{
    if let Some(Value::Reference(_)) = get_arg(args, 0) {
        non_failing_some(Value::Integer(ARRAY_BASE_OFFSET as i32))
    } else {
        Err(VmError::ValidationError("Expected a class object reference".to_string()))
    }
}

/// `Unsafe.arrayIndexScale`: elements are one offset apart, in every array class.
pub fn delegate_array_index_scale(args: &Vec<Value>) -> (r: NativeResult)
    ensures
        match arg(args@, 0) {
            Some(Value::Reference(_)) => r == Ok::<Option<Value>, VmError>(Some(Value::Integer(1))),
            _ => r matches Err(VmError::ValidationError(_)),
        },
{
    if let Some(Value::Reference(_)) = get_arg(args, 0) {
        non_failing_some(Value::Integer(1))
    } else {
        Err(VmError::ValidationError("Expected a class object reference".to_string()))
    }
}

/// `Unsafe.addressSize`: addresses take 8 bytes.
pub fn delegate_address_size() -> (r: NativeResult)
    ensures
        r == Ok::<Option<Value>, VmError>(Some(Value::Integer(8))),
{
    non_failing_some(Value::Integer(8))
}

/// `Unsafe.pageSize`: [`PAGE_SIZE`].
pub fn delegate_page_size() -> (r: NativeResult)
    ensures
        r == Ok::<Option<Value>, VmError>(Some(Value::Integer(4096))),
{
    non_failing_some(Value::Integer(PAGE_SIZE))
}

/// The value that a put stores, when the argument 3 has the kind `kind` takes: 0 for a
/// reference, 1 for an int, 2 for a long.
pub open spec fn put_value(args: Seq<Value>, kind: int) -> Option<Value> {
    match arg(args, 3) {
        Some(Value::Reference(x)) if kind == 0 => Some(Value::Reference(x)),
        Some(Value::Integer(x)) if kind == 1 => Some(Value::Integer(x)),
        Some(Value::Long(x)) if kind == 2 => Some(Value::Long(x)),
        _ => None,
    }
}

/// True when a put of the kind `kind` stays inside its object, where it reaches one.
pub open spec fn put_in_bounds(heap: Map<RefId, ReferenceValue>, args: Seq<Value>, kind: int) -> bool {
    match (access_target(args), put_value(args, kind)) {
        (Some((o, offset)), Some(_)) => heap.contains_key(o) ==> slot_in_bounds(heap[o], offset),
        _ => true,
    }
}

/// What a put of the kind `kind` does: with arguments of the right kinds and an object
/// that exists, it stores the value and hands back nothing; otherwise it fails with a
/// validation error and changes nothing.
pub open spec fn put_done(
    old: Map<RefId, ReferenceValue>,
    new: Map<RefId, ReferenceValue>,
    args: Seq<Value>,
    kind: int,
    r: NativeResult,
) -> bool {
    match (access_target(args), put_value(args, kind)) {
        (Some((o, offset)), Some(x)) => if old.contains_key(o) {
            r == Ok::<Option<Value>, VmError>(None) && stored(old, new, o, offset, x)
        } else {
            (r matches Err(VmError::ValidationError(_))) && new == old
        },
        _ => (r matches Err(VmError::ValidationError(_))) && new == old,
    }
}

/// The put natives: arguments (object, offset, -, value).
fn put(heap: &mut Heap, args: &Vec<Value>, kind: u8) -> (r: NativeResult)
    requires
        old(heap).wf(),
        kind <= 2,
        put_in_bounds(old(heap)@, args@, kind as int),
    ensures
        final(heap).wf(),
        put_done(old(heap)@, final(heap)@, args@, kind as int, r),
{
    let value = match get_arg(args, 3) {
        Some(Value::Reference(x)) => Value::Reference(x),
        Some(Value::Integer(x)) => Value::Integer(x),
        Some(Value::Long(x)) => Value::Long(x),
        _ => Value::Dummy,
    };
    let fits = match value {
        Value::Reference(_) => kind == 0,
        Value::Integer(_) => kind == 1,
        Value::Long(_) => kind == 2,
        _ => false,
    };
    if !fits {
        return Err(VmError::ValidationError("Expected a reference, a long and a value".to_string()));
    }
    if let (Some(Value::Reference(o_id)), Some(Value::Long(offset))) = (get_arg(args, 0), get_arg(args, 1)) {
        let o = heap.resolve_object_by_id(o_id)?;
        let is_array = o.is_array();
        store(heap, o_id, is_array, offset, value);
        non_failing_none()
    } else {
        Err(VmError::ValidationError("Expected a reference, a long and a value".to_string()))
    }
}

/// `Unsafe.putObjectVolatile` and `putObject`: stores the reference argument at the
/// offset of the object or array.
pub fn delegate_put_object_volatile(heap: &mut Heap, args: &Vec<Value>) -> (r: NativeResult)
    requires
        old(heap).wf(),
        put_in_bounds(old(heap)@, args@, 0),
    ensures
        final(heap).wf(),
        put_done(old(heap)@, final(heap)@, args@, 0, r),
{
    put(heap, args, 0)
}

/// `Unsafe.putIntVolatile` and `putInt` on an object: stores the int argument at the
/// offset of the object or array.
pub fn delegate_put_int_volatile(heap: &mut Heap, args: &Vec<Value>) -> (r: NativeResult)
    requires
        old(heap).wf(),
        put_in_bounds(old(heap)@, args@, 1),
    ensures
        final(heap).wf(),
        put_done(old(heap)@, final(heap)@, args@, 1, r),
{
    put(heap, args, 1)
}

/// `Unsafe.putLongVolatile` and `putLong` on an object: stores the long argument at the
/// offset of the object or array.
pub fn delegate_put_long_volatile(heap: &mut Heap, args: &Vec<Value>) -> (r: NativeResult)
    requires
        old(heap).wf(),
        put_in_bounds(old(heap)@, args@, 2),
    ensures
        final(heap).wf(),
        put_done(old(heap)@, final(heap)@, args@, 2, r),
{
    put(heap, args, 2)
}

/// True when a read or an ordered put stays inside what it reaches: an array or a plain
/// object at the offset, and for a class object the static object `class_statics` of the
/// class it stands for, which must then be given.
pub open spec fn access_in_bounds(
    heap: Map<RefId, ReferenceValue>,
    args: Seq<Value>,
    class_statics: Option<RefId>,
) -> bool {
    match access_target(args) {
        Some((o, offset)) => heap.contains_key(o) ==> if heap[o].spec_is_array() || !is_class_object(heap[o]) {
            slot_in_bounds(heap[o], offset)
        } else {
            class_statics matches Some(s) && heap.contains_key(s) && !heap[s].spec_is_array() && slot_in_bounds(
                heap[s],
                offset,
            )
        },
        None => true,
    }
}

/// The object whose component an access at `o` reaches: `o` itself, or for a class object
/// the static object of its class.
pub open spec fn reached(heap: Map<RefId, ReferenceValue>, o: RefId, class_statics: Option<RefId>) -> RefId {
    if heap[o].spec_is_array() || !is_class_object(heap[o]) {
        o
    } else {
        class_statics.unwrap()
    }
}

/// What a read gives: the component at the offset of the object reached, when the
/// arguments have the right kinds and the object exists.
pub open spec fn loaded(heap: Map<RefId, ReferenceValue>, args: Seq<Value>, class_statics: Option<RefId>) -> Option<
    Value,
> {
    match access_target(args) {
        Some((o, offset)) => if heap.contains_key(o) {
            let t = reached(heap, o, class_statics);
            Some(heap[t].components()[slot(heap[t], offset)])
        } else {
            None
        },
        None => None,
    }
}

/// The read natives: arguments (object, offset).
fn get(heap: &Heap, args: &Vec<Value>, class_statics: Option<RefId>) -> (r: NativeResult)
    requires
        heap.wf(),
        access_in_bounds(heap@, args@, class_statics),
    ensures
        match loaded(heap@, args@, class_statics) {
            Some(v) => r == Ok::<Option<Value>, VmError>(Some(v)),
            None => r matches Err(VmError::ValidationError(_)),
        },
{
    if let (Some(Value::Reference(o_id)), Some(Value::Long(offset))) = (get_arg(args, 0), get_arg(args, 1)) {
        let o = heap.resolve_object_by_id(o_id)?;
        if o.is_array() {
            return non_failing_some(load(o, offset));
        }
        let field_value = if same_text(o.class_name(), "java/lang/Class") {
            match class_statics {
                Some(s) => {
                    let static_object = heap.resolve_object_by_id(s)?;
                    load(static_object, offset)
                },
                None => {
                    return Err(VmError::ValidationError("No static object for the class".to_string()));
                },
            }
        } else {
            load(o, offset)
        };
        non_failing_some(field_value)
    } else {
        Err(VmError::ValidationError("Expected a reference or array".to_string()))
    }
}

/// `Unsafe.getObjectVolatile` and `getObject`: the component at the offset of the object
/// or array. For a `java/lang/Class` object it is the static field at that offset, read
/// from `class_statics`, the static object of the class the class object stands for, as
/// the class manager finds it.
pub fn delegate_get_object_volatile(heap: &Heap, args: &Vec<Value>, class_statics: Option<RefId>) -> (r:
    NativeResult)
    requires
        heap.wf(),
        access_in_bounds(heap@, args@, class_statics),
    ensures
        match loaded(heap@, args@, class_statics) {
            Some(v) => r == Ok::<Option<Value>, VmError>(Some(v)),
            None => r matches Err(VmError::ValidationError(_)),
        },
{
    get(heap, args, class_statics)
}

/// `Unsafe.getIntVolatile` and `getInt` on an object: as
/// [`delegate_get_object_volatile`].
pub fn delegate_get_int_volatile(heap: &Heap, args: &Vec<Value>, class_statics: Option<RefId>) -> (r:
    NativeResult)
    requires
        heap.wf(),
        access_in_bounds(heap@, args@, class_statics),
    ensures
        match loaded(heap@, args@, class_statics) {
            Some(v) => r == Ok::<Option<Value>, VmError>(Some(v)),
            None => r matches Err(VmError::ValidationError(_)),
        },
{
    get(heap, args, class_statics)
}

/// `Unsafe.getLongVolatile` and `getLong` on an object: as
/// [`delegate_get_object_volatile`].
pub fn delegate_get_long_volatile(heap: &Heap, args: &Vec<Value>, class_statics: Option<RefId>) -> (r:
    NativeResult)
    requires
        heap.wf(),
        access_in_bounds(heap@, args@, class_statics),
    ensures
        match loaded(heap@, args@, class_statics) {
            Some(v) => r == Ok::<Option<Value>, VmError>(Some(v)),
            None => r matches Err(VmError::ValidationError(_)),
        },
{
    get(heap, args, class_statics)
}

/// What `Unsafe.putOrderedObject` does: with an object argument and an offset, and an
/// object that exists, it stores the argument 3, whatever its kind, in the object reached
/// and hands back nothing; otherwise it fails with a validation error and changes
/// nothing.
pub open spec fn put_ordered_done(
    old: Map<RefId, ReferenceValue>,
    new: Map<RefId, ReferenceValue>,
    args: Seq<Value>,
    class_statics: Option<RefId>,
    r: NativeResult,
) -> bool {
    match (access_target(args), arg(args, 3)) {
        (Some((o, offset)), Some(x)) => if old.contains_key(o) {
            r == Ok::<Option<Value>, VmError>(None) && stored(old, new, reached(old, o, class_statics), offset, x)
        } else {
            (r matches Err(VmError::ValidationError(_))) && new == old
        },
        _ => (r matches Err(VmError::ValidationError(_))) && new == old,
    }
}

/// `Unsafe.putOrderedObject`: stores the argument 3 at the offset of the object or array.
/// For a `java/lang/Class` object it is the static field at that offset that is set, in
/// `class_statics`, the static object of the class the class object stands for, as the
/// class manager finds it once that class is initialized.
pub fn delegate_put_ordered_object(heap: &mut Heap, args: &Vec<Value>, class_statics: Option<RefId>) -> (r:
    NativeResult)
    requires
        old(heap).wf(),
        arg(args@, 3) is Some ==> access_in_bounds(old(heap)@, args@, class_statics),
    ensures
        final(heap).wf(),
        put_ordered_done(old(heap)@, final(heap)@, args@, class_statics, r),
{
    if let (Some(Value::Reference(o_id)), Some(Value::Long(offset)), Some(x)) = (
        get_arg(args, 0),
        get_arg(args, 1),
        get_arg(args, 3),
    ) {
        let o = heap.resolve_object_by_id(o_id)?;
        if o.is_array() {
            store(heap, o_id, true, offset, x);
            return non_failing_none();
        }
        if same_text(o.class_name(), "java/lang/Class") {
            match class_statics {
                Some(s) => {
                    store(heap, s, false, offset, x);
                },
                None => {
                    return Err(VmError::ValidationError("No static object for the class".to_string()));
                },
            }
        } else {
            store(heap, o_id, false, offset, x);
        }
        non_failing_none()
    } else {
        Err(VmError::ValidationError("Expected a reference or array".to_string()))
    }
}

/// The arguments of a compare-and-swap when they have the right kinds: the object, the
/// offset, the expected value at `expected_at` and the new value at `new_at`, both of
/// the kind `kind` (0 for a reference, 1 for an int, 2 for a long).
pub open spec fn cas_args(args: Seq<Value>, kind: int, expected_at: int, new_at: int) -> Option<
    (RefId, i64, Value, Value),
> {
    match (access_target(args), arg(args, expected_at), arg(args, new_at)) {
        (Some((o, offset)), Some(e), Some(x)) => if (kind == 0 && e is Reference && x is Reference) || (kind == 1
            && e is Integer && x is Integer) || (kind == 2 && e is Long && x is Long) {
            Some((o, offset, e, x))
        } else {
            None
        },
        _ => None,
    }
}

/// The arguments of a compare-and-swap: `(object, offset, -, expected, new)`, where a
/// long takes two slots.
fn cas_arguments(args: &Vec<Value>, kind: u8, expected_at: usize, new_at: usize) -> (r: Option<
    (RefId, i64, Value, Value),
>)
    requires
        kind <= 2,
    ensures
        r == cas_args(args@, kind as int, expected_at as int, new_at as int),
{
    if let (Some(Value::Reference(o)), Some(Value::Long(offset)), Some(e), Some(x)) = (
        get_arg(args, 0),
        get_arg(args, 1),
        get_arg(args, expected_at),
        get_arg(args, new_at),
    ) {
        let fits = match (e, x) {
            (Value::Reference(_), Value::Reference(_)) => kind == 0,
            (Value::Integer(_), Value::Integer(_)) => kind == 1,
            (Value::Long(_), Value::Long(_)) => kind == 2,
            _ => false,
        };
        if fits {
            Some((o, offset, e, x))
        } else {
            None
        }
    } else {
        None
    }
}

/// What a compare-and-swap does, given whether it was refused as invalid: when the
/// component at the offset holds the expected value, it becomes the new value and the
/// result is `true`; otherwise nothing changes and the result is `false`, as it is for
/// arguments of other kinds.
pub open spec fn cas_done(
    old: Map<RefId, ReferenceValue>,
    new: Map<RefId, ReferenceValue>,
    target: Option<(RefId, i64, Value, Value)>,
    refused: bool,
    r: NativeResult,
) -> bool {
    match target {
        Some((o, offset, e, x)) => if refused {
            (r matches Err(VmError::ValidationError(_))) && new == old
        } else if old[o].components()[slot(old[o], offset)] == e {
            r == Ok::<Option<Value>, VmError>(Some(java_bool(true))) && stored(old, new, o, offset, x)
        } else {
            r == Ok::<Option<Value>, VmError>(Some(java_bool(false))) && new == old
        },
        None => r == Ok::<Option<Value>, VmError>(Some(java_bool(false))) && new == old,
    }
}

/// True when a compare-and-swap of the kind `kind` that reaches an object stays inside
/// it; for an int or a long the object must be a plain object, as reading an array's
/// field panics.
pub open spec fn cas_in_bounds(
    heap: Map<RefId, ReferenceValue>,
    target: Option<(RefId, i64, Value, Value)>,
    kind: int,
) -> bool {
    match target {
        Some((o, offset, e, x)) => heap.contains_key(o) && (kind == 0 ==> heap[o].spec_id().0 != 0) ==> (kind
            != 0 ==> !heap[o].spec_is_array()) && slot_in_bounds(heap[o], offset),
        None => true,
    }
}

/// Compares the component at `offset` of `o` with `expected` and, when they are equal,
/// sets it to `x`.
fn swap_if(heap: &mut Heap, o: RefId, offset: i64, expected: Value, x: Value) -> (r: bool)
    requires
        old(heap).wf(),
        old(heap)@.contains_key(o),
        slot_in_bounds(old(heap)@[o], offset),
    ensures
        final(heap).wf(),
        r == (old(heap)@[o].components()[slot(old(heap)@[o], offset)] == expected),
        r ==> stored(old(heap)@, final(heap)@, o, offset, x),
        !r ==> final(heap)@ == old(heap)@,
{
    let object = heap.resolve_object_by_id(o);
    let (is_array, current) = match object {
        Ok(obj) => (obj.is_array(), load(obj, offset)),
        Err(_) => (false, Value::Dummy),
    };
    if current == expected {
        store(heap, o, is_array, offset, x);
        true
    } else {
        false
    }
}

/// `Unsafe.compareAndSwapObject(o, offset, expected, x)` on an object or array. A
/// missing object, or the object with id 0, is refused with a validation error.
pub fn delegate_compare_and_swap_object(heap: &mut Heap, args: &Vec<Value>) -> (r: NativeResult)
    requires
        old(heap).wf(),
        cas_in_bounds(old(heap)@, cas_args(args@, 0, 3, 4), 0),
    ensures
        final(heap).wf(),
        cas_done(
            old(heap)@,
            final(heap)@,
            cas_args(args@, 0, 3, 4),
            match cas_args(args@, 0, 3, 4) {
                Some((o, _, _, _)) => !old(heap)@.contains_key(o) || old(heap)@[o].spec_id().0 == 0,
                None => false,
            },
            r,
        ),
{
    if let Some((o_id, offset, expected, x)) = cas_arguments(args, 0, 3, 4) {
        let o = heap.resolve_object_by_id(o_id)?;
        if o.is_null() {
            return Err(VmError::ValidationError("Expected an object or array but found null".to_string()));
        }
        let swapped = swap_if(heap, o_id, offset, expected, x);
        non_failing_some(Value::from(swapped))
    } else {
        non_failing_some(Value::from(false))
    }
}

/// `Unsafe.compareAndSwapInt(o, offset, expected, x)` on a field of an object. A missing
/// object is refused with a validation error.
pub fn delegate_compare_and_swap_int(heap: &mut Heap, args: &Vec<Value>) -> (r: NativeResult)
    requires
        old(heap).wf(),
        cas_in_bounds(old(heap)@, cas_args(args@, 1, 3, 4), 1),
    ensures
        final(heap).wf(),
        cas_done(
            old(heap)@,
            final(heap)@,
            cas_args(args@, 1, 3, 4),
            match cas_args(args@, 1, 3, 4) {
                Some((o, _, _, _)) => !old(heap)@.contains_key(o),
                None => false,
            },
            r,
        ),
{
    if let Some((o_id, offset, expected, x)) = cas_arguments(args, 1, 3, 4) {
        let _ = heap.resolve_object_by_id(o_id)?;
        let swapped = swap_if(heap, o_id, offset, expected, x);
        non_failing_some(Value::from(swapped))
    } else {
        non_failing_some(Value::from(false))
    }
}

/// `Unsafe.compareAndSwapLong(o, offset, expected, x)` on a field of an object; the
/// expected long comes first, the new one after its second slot. A missing object is
/// refused with a validation error.
pub fn delegate_compare_and_swap_long(heap: &mut Heap, args: &Vec<Value>) -> (r: NativeResult)
    requires
        old(heap).wf(),
        cas_in_bounds(old(heap)@, cas_args(args@, 2, 3, 5), 2),
    ensures
        final(heap).wf(),
        cas_done(
            old(heap)@,
            final(heap)@,
            cas_args(args@, 2, 3, 5),
            match cas_args(args@, 2, 3, 5) {
                Some((o, _, _, _)) => !old(heap)@.contains_key(o),
                None => false,
            },
            r,
        ),
{
    if let Some((o_id, offset, expected, x)) = cas_arguments(args, 2, 3, 5) {
        let _ = heap.resolve_object_by_id(o_id)?;
        let swapped = swap_if(heap, o_id, offset, expected, x);
        non_failing_some(Value::from(swapped))
    } else {
        non_failing_some(Value::from(false))
    }
}

/// `Unsafe.allocateMemory(n)`: hands out `n` bytes of native memory and gives their
/// address, or -1 when they do not fit (see [`Unsafe::allocate_memory`]).
pub fn delegate_allocate_memory(memory: &mut Unsafe, args: &Vec<Value>) -> (r: NativeResult)
    requires
        old(memory).wf(),
        match arg(args@, 0) {
            Some(Value::Long(n)) => old(memory).chunk().used() + (n as usize) <= usize::MAX,
            _ => true,
        },
    ensures
        final(memory).wf(),
        match arg(args@, 0) {
            Some(Value::Long(n)) => {
                let amount = n as usize;
                &&& final(memory).chunk().bytes() == old(memory).chunk().bytes()
                &&& final(memory).chunk().start() == old(memory).chunk().start()
                &&& final(memory).chunk().capacity() == old(memory).chunk().capacity()
                &&& if old(memory).chunk().used() + amount <= old(memory).chunk().capacity() {
                    &&& r matches Ok(Some(Value::Long(p))) && p == old(memory).chunk().start() + old(memory).chunk().used()
                    &&& final(memory).chunk().used() == old(memory).chunk().used() + aligned_size(amount as int)
                } else {
                    &&& r == Ok::<Option<Value>, VmError>(Some(Value::Long(-1i64)))
                    &&& final(memory).chunk().used() == old(memory).chunk().used()
                }
            },
            _ => (r matches Err(VmError::ValidationError(_))) && *final(memory) == *old(memory),
        },
{
    if let Some(Value::Long(num)) = get_arg(args, 0) {
        let ptr = memory.allocate_memory(num as usize);
        non_failing_some(Value::Long(ptr))
    } else {
        Err(VmError::ValidationError("Expected a long".to_string()))
    }
}

/// `Unsafe.freeMemory(address)`: memory handed out is never reused, so nothing changes.
pub fn delegate_free_memory(memory: &mut Unsafe, args: &Vec<Value>) -> (r: NativeResult)
    ensures
        *final(memory) == *old(memory),
        match arg(args@, 0) {
            Some(Value::Long(_)) => r == Ok::<Option<Value>, VmError>(None),
            _ => r matches Err(VmError::ValidationError(_)),
        },
{
    if let Some(Value::Long(num)) = get_arg(args, 0) {
        memory.free_memory(num);
        non_failing_none()
    } else {
        Err(VmError::ValidationError("Expected a long".to_string()))
    }
}

/// `Unsafe.putLong(address, x)`: writes the long at the address, little-endian.
pub fn delegate_put_long(memory: &mut Unsafe, args: &Vec<Value>) -> (r: NativeResult)
    requires
        old(memory).wf(),
        match (arg(args@, 0), arg(args@, 2)) {
            (Some(Value::Long(ptr)), Some(Value::Long(_))) => old(memory).valid_range(ptr, 8),
            _ => true,
        },
    ensures
        match (arg(args@, 0), arg(args@, 2)) {
            (Some(Value::Long(ptr)), Some(Value::Long(value))) => r == Ok::<Option<Value>, VmError>(None)
                && Unsafe::written(old(memory), final(memory), ptr as int, le_bytes(unsigned_part(value as int, 8), 8)),
            _ => (r matches Err(VmError::ValidationError(_))) && *final(memory) == *old(memory),
        },
{
    if let (Some(Value::Long(ptr)), Some(Value::Long(value))) = (get_arg(args, 0), get_arg(args, 2)) {
        memory.put_long(ptr, value)?;
        non_failing_none()
    } else {
        Err(VmError::ValidationError("Expected a long as address and a long as value".to_string()))
    }
}

/// `Unsafe.getLong(address)`: the long at the address.
pub fn delegate_get_long(memory: &Unsafe, args: &Vec<Value>) -> (r: NativeResult)
    requires
        memory.wf(),
        match arg(args@, 0) {
            Some(Value::Long(ptr)) => memory.valid_range(ptr, 8),
            _ => true,
        },
    ensures
        match arg(args@, 0) {
            Some(Value::Long(ptr)) => r matches Ok(Some(Value::Long(v))) && v == as_signed(
                le_value(memory.spec_bytes_at(ptr as int, 8)),
                8,
            ),
            _ => r matches Err(VmError::ValidationError(_)),
        },
{
    if let Some(Value::Long(ptr)) = get_arg(args, 0) {
        let val = memory.get_long(ptr)?;
        non_failing_some(Value::Long(val))
    } else {
        Err(VmError::ValidationError("Expected a long as address".to_string()))
    }
}

/// `Unsafe.putInt(address, x)`: writes the int at the address, little-endian.
pub fn delegate_put_int(memory: &mut Unsafe, args: &Vec<Value>) -> (r: NativeResult)
    requires
        old(memory).wf(),
        match (arg(args@, 0), arg(args@, 2)) {
            (Some(Value::Long(ptr)), Some(Value::Integer(_))) => old(memory).valid_range(ptr, 4),
            _ => true,
        },
    ensures
        match (arg(args@, 0), arg(args@, 2)) {
            (Some(Value::Long(ptr)), Some(Value::Integer(value))) => r == Ok::<Option<Value>, VmError>(None)
                && Unsafe::written(old(memory), final(memory), ptr as int, le_bytes(unsigned_part(value as int, 4), 4)),
            _ => (r matches Err(VmError::ValidationError(_))) && *final(memory) == *old(memory),
        },
{
    if let (Some(Value::Long(ptr)), Some(Value::Integer(value))) = (get_arg(args, 0), get_arg(args, 2)) {
        memory.put_int(ptr, value)?;
        non_failing_none()
    } else {
        Err(VmError::ValidationError("Expected a long as address and a int as value".to_string()))
    }
}

/// `Unsafe.getInt(address)`: the int at the address.
pub fn delegate_get_int(memory: &Unsafe, args: &Vec<Value>) -> (r: NativeResult)
    requires
        memory.wf(),
        match arg(args@, 0) {
            Some(Value::Long(ptr)) => memory.valid_range(ptr, 4),
            _ => true,
        },
    ensures
        match arg(args@, 0) {
            Some(Value::Long(ptr)) => r matches Ok(Some(Value::Integer(v))) && v == as_signed(
                le_value(memory.spec_bytes_at(ptr as int, 4)),
                4,
            ),
            _ => r matches Err(VmError::ValidationError(_)),
        },
{
    if let Some(Value::Long(ptr)) = get_arg(args, 0) {
        let val = memory.get_int(ptr)?;
        non_failing_some(Value::Integer(val))
    } else {
        Err(VmError::ValidationError("Expected a long as address".to_string()))
    }
}

/// `Unsafe.getByte(address)`: the byte at the address, sign-extended to an int.
pub fn delegate_get_byte(memory: &Unsafe, args: &Vec<Value>) -> (r: NativeResult)
    requires
        memory.wf(),
        match arg(args@, 0) {
            Some(Value::Long(ptr)) => memory.valid_range(ptr, 1),
            _ => true,
        },
    ensures
        match arg(args@, 0) {
            Some(Value::Long(ptr)) => r matches Ok(Some(Value::Integer(v))) && v == as_signed(
                le_value(memory.spec_bytes_at(ptr as int, 1)),
                1,
            ),
            _ => r matches Err(VmError::ValidationError(_)),
        },
{
    if let Some(Value::Long(ptr)) = get_arg(args, 0) {
        let val = memory.get_byte(ptr)?;
        non_failing_some(Value::Integer(val))
    } else {
        Err(VmError::ValidationError("Expected a long as address".to_string()))
    }
}

/// The arguments of `Unsafe.setMemory` when they have the right kinds: the object (null
/// for native memory), the address, the number of bytes and the byte value.
pub open spec fn set_memory_args(args: Seq<Value>) -> Option<(RefId, i64, i64, i32)> {
    match (arg(args, 0), arg(args, 1), arg(args, 3), arg(args, 5)) {
        (Some(Value::Reference(o)), Some(Value::Long(offset)), Some(Value::Long(n)), Some(Value::Integer(v))) => Some(
            (o, offset, n, v),
        ),
        _ => None,
    }
}

/// `Unsafe.setMemory(null, address, n, value)`: sets `n` bytes of native memory from the
/// address on to the value cut to a byte. Setting the memory of an object panics.
pub fn delegate_set_memory(memory: &mut Unsafe, args: &Vec<Value>) -> (r: NativeResult)
    requires
        old(memory).wf(),
        match set_memory_args(args@) {
            Some((o, offset, n, _)) => o.0 == 0 && old(memory).valid_range(offset, (n as usize) as nat),
            None => true,
        },
    ensures
        match set_memory_args(args@) {
            Some((_, offset, n, v)) => r == Ok::<Option<Value>, VmError>(None) && Unsafe::written(
                old(memory),
                final(memory),
                offset as int,
                Seq::new((n as usize) as nat, |i: int| v as u8),
            ),
            None => (r matches Err(VmError::ValidationError(_))) && *final(memory) == *old(memory),
        },
{
    if let (Some(Value::Reference(_)), Some(Value::Long(offset)), Some(Value::Long(bytes)), Some(Value::Integer(value))) = (
        get_arg(args, 0),
        get_arg(args, 1),
        get_arg(args, 3),
        get_arg(args, 5),
    ) {
        memory.set_memory(offset, bytes as usize, value as u8)?;
        non_failing_none()
    } else {
        Err(VmError::ValidationError("Expected reference, two longs and a byte".to_string()))
    }
}

/// The arguments of `Unsafe.copyMemory` when they have the right kinds: source object
/// and address, destination object and address, and the number of bytes.
pub open spec fn copy_memory_args(args: Seq<Value>) -> Option<(RefId, i64, RefId, i64, i64)> {
    match (arg(args, 0), arg(args, 1), arg(args, 3), arg(args, 4), arg(args, 6)) {
        (
            Some(Value::Reference(o1)),
            Some(Value::Long(off1)),
            Some(Value::Reference(o2)),
            Some(Value::Long(off2)),
            Some(Value::Long(n)),
        ) => Some((o1, off1, o2, off2, n)),
        _ => None,
    }
}

/// `dst` with the bytes `bytes[start..start + n]`, each as an int, from `start` on.
pub open spec fn bytes_written(dst: Seq<Value>, start: int, bytes: Seq<u8>, n: int) -> Seq<Value> {
    Seq::new(dst.len(), |i: int| if start <= i < start + n { Value::Integer(bytes[i] as i32) } else { dst[i] })
}

/// True when a copy of native memory into a byte array stays inside what it reads and
/// writes. An element `i` of the array is set from the byte `i` of what was read, which
/// holds only `n` bytes, so the copy must start at the array's first element unless it
/// copies nothing.
pub open spec fn copy_into_array_in_bounds(memory: Unsafe, dst: ReferenceValue, off1: i64, off2: i64, n: i64) -> bool {
    let len = n as usize;
    let start = (off2 as usize) - ARRAY_BASE_OFFSET;
    &&& dst.spec_class_name() == "[B"@
    &&& memory.valid_range(off1, len as nat)
    &&& ARRAY_BASE_OFFSET <= off2 as usize
    &&& start + len <= len
    &&& start + len <= dst.components().len()
}

/// True when `Unsafe.copyMemory` does not panic: native memory is copied within range,
/// the source is never an object, and a copy into an array stays inside it.
pub open spec fn copy_memory_in_bounds(heap: Map<RefId, ReferenceValue>, memory: Unsafe, args: Seq<Value>) -> bool {
    match copy_memory_args(args) {
        Some((o1, off1, o2, off2, n)) => if o1.0 == 0 && o2.0 == 0 {
            memory.valid_range(off1, (n as usize) as nat) && memory.valid_range(off2, (n as usize) as nat)
        } else {
            !heap.contains_key(o1) && (heap.contains_key(o2) && heap[o2].spec_is_array()
                ==> copy_into_array_in_bounds(memory, heap[o2], off1, off2, n))
        },
        None => true,
    }
}

/// `Unsafe.copyMemory(src, src_offset, dst, dst_offset, n)`. With two null objects it
/// copies `n` bytes of native memory, the ranges may overlap. With a byte array as
/// destination it sets its elements from the `n` bytes of native memory at the source
/// address, each byte as an int from 0 to 255. A destination that is no array is refused
/// with a validation error, as are arguments of other kinds.
pub fn delegate_copy_memory(heap: &mut Heap, memory: &mut Unsafe, args: &Vec<Value>) -> (r: NativeResult)
    requires
        old(heap).wf(),
        old(memory).wf(),
        copy_memory_in_bounds(old(heap)@, *old(memory), args@),
    ensures
        final(heap).wf(),
        match copy_memory_args(args@) {
            Some((o1, off1, o2, off2, n)) => if o1.0 == 0 && o2.0 == 0 {
                &&& r == Ok::<Option<Value>, VmError>(None)
                &&& Unsafe::written(
                    old(memory),
                    final(memory),
                    off2 as int,
                    old(memory).spec_bytes_at(off1 as int, (n as usize) as nat),
                )
                &&& final(heap)@ == old(heap)@
            } else if old(heap)@.contains_key(o2) && old(heap)@[o2].spec_is_array() {
                &&& r == Ok::<Option<Value>, VmError>(None)
                &&& *final(memory) == *old(memory)
                &&& final(heap)@.dom() == old(heap)@.dom()
                &&& ReferenceValue::with_components(
                    &old(heap)@[o2],
                    &final(heap)@[o2],
                    bytes_written(
                        old(heap)@[o2].components(),
                        (off2 as usize) - ARRAY_BASE_OFFSET,
                        old(memory).spec_bytes_at(off1 as int, (n as usize) as nat),
                        (n as usize) as int,
                    ),
                )
                &&& forall|other: RefId| other != o2 ==> #[trigger] final(heap)@.index(other) == old(heap)@.index(
                    other,
                )
            } else {
                &&& r matches Err(VmError::ValidationError(_))
                &&& *final(memory) == *old(memory)
                &&& final(heap)@ == old(heap)@
            },
            None => {
                &&& r matches Err(VmError::ValidationError(_))
                &&& *final(memory) == *old(memory)
                &&& final(heap)@ == old(heap)@
            },
        },
{
    if let (
        Some(Value::Reference(o1)),
        Some(Value::Long(off1)),
        Some(Value::Reference(o2)),
        Some(Value::Long(off2)),
        Some(Value::Long(length)),
    ) = (get_arg(args, 0), get_arg(args, 1), get_arg(args, 3), get_arg(args, 4), get_arg(args, 6)) {
        if o1.is_null() && o2.is_null() {
            memory.copy_memory(off1, off2, length as usize)?;
            return non_failing_none();
        }
        let dst_len = match heap.resolve_object_by_id(o2) {
            Ok(dst) => if dst.is_array() {
                Some(dst.get_length())
            } else {
                None
            },
            Err(_) => None,
        };
        let dst_len = match dst_len {
            Some(l) => l,
            None => {
                return Err(VmError::ValidationError("dest has to be an array".to_string()));
            },
        };
        let len = length as usize;
        let bytes = memory.get_bytes(off1, len)?;
        let start = off2 as usize - ARRAY_BASE_OFFSET;
        let ghost h0 = heap@;
        let ghost dst = h0[o2].components();
        proof {
            memory.chunk().lemma_wf();
            ReferenceValue::lemma_with_own_components(&h0[o2]);
            assert(Seq::new(
                dst.len(),
                |j: int| if start <= j < start { Value::Integer(bytes@[j] as i32) } else { dst[j] },
            ) =~= dst);
        }
        let mut i: usize = start;
        while i < start + len
            invariant
                heap.wf(),
                heap@.dom() == h0.dom(),
                h0.contains_key(o2),
                h0[o2].spec_is_array(),
                dst == h0[o2].components(),
                dst.len() == dst_len,
                start + len <= dst_len,
                start + len <= len,
                bytes@.len() == len,
                start <= i <= start + len,
                forall|other: RefId| other != o2 ==> #[trigger] heap@.index(other) == h0.index(other),
                ReferenceValue::with_components(
                    &h0[o2],
                    &heap@[o2],
                    Seq::new(
                        dst.len(),
                        |j: int| if start <= j < i { Value::Integer(bytes@[j] as i32) } else { dst[j] },
                    ),
                ),
            decreases start + len - i,
        {
            let ghost before = heap@[o2];
            let ghost partial = Seq::new(
                dst.len(),
                |j: int| if start <= j < i { Value::Integer(bytes@[j] as i32) } else { dst[j] },
            );
            proof {
                ReferenceValue::lemma_with_components(&h0[o2], &before, partial);
            }
            heap.set_element(o2, i, Value::Integer(bytes[i] as i32));
            proof {
                ReferenceValue::lemma_with_components_then_updated(
                    &h0[o2],
                    &before,
                    partial,
                    &heap@[o2],
                    i as int,
                    Value::Integer(bytes@[i as int] as i32),
                );
                assert(partial.update(i as int, Value::Integer(bytes@[i as int] as i32)) =~= Seq::new(
                    dst.len(),
                    |j: int| if start <= j < i + 1 { Value::Integer(bytes@[j] as i32) } else { dst[j] },
                ));
            }
            i = i + 1;
        }
        proof {
            assert(Seq::new(
                dst.len(),
                |j: int| if start <= j < start + len { Value::Integer(bytes@[j] as i32) } else { dst[j] },
            ) =~= bytes_written(dst, start as int, bytes@, len as int));
        }
        non_failing_none()
    } else {
        Err(VmError::ValidationError("Expected reference, two longs and a byte".to_string()))
    }
}

/// What a store leaves at the component it wrote: the value, with the object's kind and
/// class unchanged.
proof fn lemma_stored_reads_back(
    old: Map<RefId, ReferenceValue>,
    new: Map<RefId, ReferenceValue>,
    o: RefId,
    offset: i64,
    v: Value,
)
    requires
        old.contains_key(o),
        slot_in_bounds(old[o], offset),
        stored(old, new, o, offset, v),
    ensures
        new.contains_key(o),
        new[o].spec_is_array() == old[o].spec_is_array(),
        is_class_object(new[o]) == is_class_object(old[o]),
        slot_in_bounds(new[o], offset),
        new[o].components()[slot(new[o], offset)] == v,
{
    ReferenceValue::lemma_updated_is_with_components(&old[o], &new[o], slot(old[o], offset), v);
    ReferenceValue::lemma_with_components(
        &old[o],
        &new[o],
        old[o].components().update(slot(old[o], offset), v),
    );
}

/// A read at the offset of an array or of an object other than a class object gives the
/// value that a put there stored.
pub proof fn law_get_after_put(
    old: Map<RefId, ReferenceValue>,
    new: Map<RefId, ReferenceValue>,
    put_args: Seq<Value>,
    kind: int,
    get_args: Seq<Value>,
)
    requires
        put_in_bounds(old, put_args, kind),
        put_done(old, new, put_args, kind, Ok::<Option<Value>, VmError>(None)),
        access_target(get_args) == access_target(put_args),
        access_target(put_args) is Some,
        !is_class_object(old[access_target(put_args)->Some_0.0]),
    ensures
        loaded(new, get_args, None) == put_value(put_args, kind),
{
    let (o, offset) = access_target(put_args)->Some_0;
    lemma_stored_reads_back(old, new, o, offset, put_value(put_args, kind)->Some_0);
}

/// After a compare-and-swap that succeeded, a read at the same offset gives the new value.
pub proof fn law_get_after_successful_swap(
    old: Map<RefId, ReferenceValue>,
    new: Map<RefId, ReferenceValue>,
    target: Option<(RefId, i64, Value, Value)>,
    kind: int,
    get_args: Seq<Value>,
)
    requires
        cas_in_bounds(old, target, kind),
        target is Some,
        old.contains_key(target->Some_0.0),
        old[target->Some_0.0].spec_id().0 != 0,
        cas_done(old, new, target, false, Ok::<Option<Value>, VmError>(Some(java_bool(true)))),
        access_target(get_args) == Some((target->Some_0.0, target->Some_0.1)),
        !is_class_object(old[target->Some_0.0]),
    ensures
        loaded(new, get_args, None) == Some(target->Some_0.3),
{
    let (o, offset, e, x) = target->Some_0;
    lemma_stored_reads_back(old, new, o, offset, x);
}

} // verus!
