use vstd::prelude::*;

use crate::field_info::{FieldType, PrimitiveType};
use crate::vm::class::ClassId;
use crate::vm::VmError;

verus! {

/// The identity of a heap object; the id 0 stands for `null`.
#[derive(Debug, PartialEq, Eq, Structural, Clone, Copy, Hash)]
pub struct RefId(pub u32);

impl RefId {
    /// True for the null reference.
    pub fn is_null(&self) -> (r: bool)
        ensures
            r == (self.0 == 0),
    {
        self.0 == 0
    }

    /// The id as the numeric value of the JNI object handle that stands for it.
    pub fn nid(&self) -> (r: usize)
        ensures
            r == self.0,
    {
        self.0 as usize
    }
}

/// A value on the operand stack, in a local variable or in a field. Floats are held as
/// their IEEE 754 bit patterns. A `Long` or `Double` takes two slots; the second one
/// holds `Dummy`.
#[derive(Debug, PartialEq, Eq, Structural, Clone, Copy)]
pub enum Value {
    Uninitialized,
    Reference(RefId),
    Integer(i32),
    Long(i64),
    Float(u32),
    Double(u64),
    Dummy,
}

impl Default for Value {
    fn default() -> (r: Self)
        ensures
            r == Value::Uninitialized,
    {
        Value::Uninitialized
    }
}

/// A boolean as Java code sees it: the int 1 or 0.
impl From<bool> for Value {
    fn from(value: bool) -> (r: Self) {
        Value::Integer(if value { 1 } else { 0 })
    }
}

impl vstd::std_specs::convert::FromSpecImpl<bool> for Value {
    open spec fn obeys_from_spec() -> bool {
        true
    }

    open spec fn from_spec(v: bool) -> Value {
        Value::Integer(if v { 1 } else { 0 })
    }
}

impl Value {
    /// The integer held, or an error for any other kind of value.
    pub fn expect_int(&self) -> (r: Result<i32, VmError>)
        ensures
            match *self {
                Value::Integer(v) => r == Ok::<i32, VmError>(v),
                _ => r matches Err(VmError::ValidationError(_)),
            },
    {
        if let Value::Integer(value) = self {
            Ok(*value)
        } else {
            Err(VmError::ValidationError("Expected integer".to_string()))
        }
    }

    /// The long held, or an error for any other kind of value.
    pub fn expect_long(&self) -> (r: Result<i64, VmError>)
        ensures
            match *self {
                Value::Long(v) => r == Ok::<i64, VmError>(v),
                _ => r matches Err(VmError::ValidationError(_)),
            },
    {
        if let Value::Long(value) = self {
            Ok(*value)
        } else {
            Err(VmError::ValidationError("Expected long".to_string()))
        }
    }

    /// The bits of the float held, or an error for any other kind of value.
    pub fn expect_float(&self) -> (r: Result<u32, VmError>)
        ensures
            match *self {
                Value::Float(v) => r == Ok::<u32, VmError>(v),
                _ => r matches Err(VmError::ValidationError(_)),
            },
    {
        if let Value::Float(value) = self {
            Ok(*value)
        } else {
            Err(VmError::ValidationError("Expected float".to_string()))
        }
    }

    /// The bits of the double held, or an error for any other kind of value.
    pub fn expect_double(&self) -> (r: Result<u64, VmError>)
        ensures
            match *self {
                Value::Double(v) => r == Ok::<u64, VmError>(v),
                _ => r matches Err(VmError::ValidationError(_)),
            },
    {
        if let Value::Double(value) = self {
            Ok(*value)
        } else {
            Err(VmError::ValidationError("Expected double".to_string()))
        }
    }

    /// The number of slots the value takes (its computational type category), or -1 for
    /// the values that are no computational type.
    pub open spec fn spec_computational_type(self) -> int {
        match self {
            Value::Uninitialized => -1,
            Value::Reference(_) => 1,
            Value::Integer(_) => 1,
            Value::Long(_) => 2,
            Value::Float(_) => 1,
            Value::Double(_) => 2,
            Value::Dummy => -1,
        }
    }

    pub fn get_computational_type(&self) -> (r: i32)
        ensures
            r == self.spec_computational_type(),
    {
        match self {
            Value::Uninitialized => -1,
            Value::Reference(_) => 1,
            Value::Integer(_) => 1,
            Value::Long(_) => 2,
            Value::Float(_) => 1,
            Value::Double(_) => 2,
            Value::Dummy => -1,
        }
    }

    /// True for the null reference.
    pub fn is_null(&self) -> (r: bool)
        ensures
            r == (*self matches Value::Reference(id) && id.0 == 0),
    {
        if let Value::Reference(r) = self {
            r.is_null()
        } else {
            false
        }
    }
}

/// What a heap object holds: the fields of an object, or the dimensions, component
/// type and elements of an array.
pub enum ReferenceType {
    Object(Vec<Value>),
    Array(usize, FieldType, Vec<Value>),
}

/// A heap object: its identity, its class and what it holds.
pub struct ReferenceValue {
    pub(crate) id: RefId,
    pub(crate) class_id: ClassId,
    pub(crate) class_name: String,
    pub(crate) reference_type: ReferenceType,
}

impl ReferenceValue {
    /// The object's identity.
    pub closed spec fn spec_id(&self) -> RefId {
        self.id
    }

    /// True for an array.
    pub closed spec fn spec_is_array(&self) -> bool {
        self.reference_type is Array
    }

    /// The fields of an object, or the elements of an array.
    pub closed spec fn components(&self) -> Seq<Value> {
        match self.reference_type {
            ReferenceType::Object(fields) => fields@,
            ReferenceType::Array(_, _, content) => content@,
        }
    }

    /// True when `new` is `old` with the component `index` replaced by `value`.
    pub closed spec fn updated(old: &ReferenceValue, new: &ReferenceValue, index: int, value: Value) -> bool {
        &&& new.id == old.id
        &&& new.class_id == old.class_id
        &&& new.class_name == old.class_name
        &&& match (old.reference_type, new.reference_type) {
            (ReferenceType::Object(a), ReferenceType::Object(b)) => b@ == a@.update(index, value),
            (ReferenceType::Array(d1, t1, a), ReferenceType::Array(d2, t2, b)) => d1 == d2 && t1 == t2
                && b@ == a@.update(index, value),
            _ => false,
        }
    }

    /// The id of the object's class.
    pub closed spec fn spec_class_id(&self) -> ClassId {
        self.class_id
    }

    /// For an array whose components are of the primitive type `p`, true.
    pub closed spec fn spec_is_array_of(&self, p: PrimitiveType) -> bool {
        self.reference_type matches ReferenceType::Array(_, FieldType::Primitive(q), _) && q == p
    }

    /// The number of fields of an object, or of elements of an array.
    pub fn component_count(&self) -> (r: usize)
        ensures
            r == self.components().len(),
    {
        match &self.reference_type {
            ReferenceType::Object(fields) => fields.len(),
            ReferenceType::Array(_, _, content) => content.len(),
        }
    }

    /// The id of the object's class.
    pub fn class_id(&self) -> (r: ClassId)
        ensures
            r == self.spec_class_id(),
    {
        self.class_id
    }

    /// True for an array whose components are of the primitive type `p`.
    pub fn is_array_of(&self, p: PrimitiveType) -> (r: bool)
        ensures
            r == self.spec_is_array_of(p),
            r ==> self.spec_is_array(),
    {
        match &self.reference_type {
            ReferenceType::Array(_, FieldType::Primitive(q), _) => *q == p,
            _ => false,
        }
    }

    /// The name of the object's class.
    pub closed spec fn spec_class_name(&self) -> Seq<char> {
        self.class_name@
    }

    /// True when `new` is `old` with its components replaced by `c`: the identity, class
    /// and kind stay.
    pub closed spec fn with_components(old: &ReferenceValue, new: &ReferenceValue, c: Seq<Value>) -> bool {
        &&& new.id == old.id
        &&& new.class_id == old.class_id
        &&& new.class_name == old.class_name
        &&& match (old.reference_type, new.reference_type) {
            (ReferenceType::Object(_), ReferenceType::Object(b)) => b@ == c,
            (ReferenceType::Array(d1, t1, _), ReferenceType::Array(d2, t2, b)) => d1 == d2 && t1 == t2 && b@
                == c,
            _ => false,
        }
    }

    /// What `with_components` keeps and what it sets.
    pub proof fn lemma_with_components(old: &ReferenceValue, new: &ReferenceValue, c: Seq<Value>)
        requires
            ReferenceValue::with_components(old, new, c),
        ensures
            new.components() == c,
            new.spec_id() == old.spec_id(),
            new.spec_is_array() == old.spec_is_array(),
            new.spec_class_name() == old.spec_class_name(),
    {
    }

    /// An object is itself with its own components.
    pub proof fn lemma_with_own_components(o: &ReferenceValue)
        ensures
            ReferenceValue::with_components(o, o, o.components()),
    {
    }

    /// Replacing the components and then one of them is one replacement.
    pub proof fn lemma_with_components_then_updated(
        a: &ReferenceValue,
        b: &ReferenceValue,
        c: Seq<Value>,
        d: &ReferenceValue,
        index: int,
        value: Value,
    )
        requires
            ReferenceValue::with_components(a, b, c),
            ReferenceValue::updated(b, d, index, value),
        ensures
            ReferenceValue::with_components(a, d, c.update(index, value)),
    {
    }

    /// An update is a replacement of the components.
    pub proof fn lemma_updated_is_with_components(a: &ReferenceValue, b: &ReferenceValue, index: int, value: Value)
        requires
            ReferenceValue::updated(a, b, index, value),
        ensures
            ReferenceValue::with_components(a, b, a.components().update(index, value)),
    {
    }

    /// The name of the object's class.
    pub fn class_name(&self) -> (r: &str)
        ensures
            r@ == self.spec_class_name(),
    {
        self.class_name.as_str()
    }

    /// The object's identity.
    pub fn id(&self) -> (r: RefId)
        ensures
            r == self.spec_id(),
    {
        self.id
    }

    /// An object of the class `class_id` named `class_name`, with the fields `fields`.
    pub fn new_object(id: RefId, class_id: ClassId, class_name: String, fields: Vec<Value>) -> (r: Self)
        ensures
            r.spec_id() == id,
            !r.spec_is_array(),
            r.components() == fields@,
            r.spec_class_id() == class_id,
            r.spec_class_name() == class_name@,
            forall|p: PrimitiveType| !r.spec_is_array_of(p),
    {
        ReferenceValue { id, class_id, class_name, reference_type: ReferenceType::Object(fields) }
    }

    /// An array of the class `class_id` named `class_name`, of `dims` dimensions of
    /// `component_type`, holding `content`.
    pub fn new_array(
        id: RefId,
        class_id: ClassId,
        class_name: String,
        dims: usize,
        component_type: FieldType,
        content: Vec<Value>,
    ) -> (r: Self)
        ensures
            r.spec_id() == id,
            r.spec_is_array(),
            r.components() == content@,
            r.spec_class_id() == class_id,
            r.spec_class_name() == class_name@,
            forall|p: PrimitiveType| #[trigger] r.spec_is_array_of(p) <==> component_type == FieldType::Primitive(p),
    {
        ReferenceValue {
            id,
            class_id,
            class_name,
            reference_type: ReferenceType::Array(dims, component_type, content),
        }
    }

    /// Sets the field `index` of an object. An array, or a field that does not exist,
    /// panics; that is left out by the precondition.
    pub fn set_field(&mut self, index: usize, value: Value)
        requires
            !old(self).spec_is_array(),
            index < old(self).components().len(),
        ensures
            ReferenceValue::updated(old(self), final(self), index as int, value),
            !final(self).spec_is_array(),
            final(self).spec_id() == old(self).spec_id(),
            final(self).components() == old(self).components().update(index as int, value),
    {
        match &mut self.reference_type {
            ReferenceType::Object(fields) => {
                fields.set(index, value);
            },
            ReferenceType::Array(_, _, _) => {},
        }
    }

    /// The field `index` of an object. An array, or a field that does not exist,
    /// panics; that is left out by the precondition.
    pub fn get_field(&self, index: usize) -> (r: Value)
        requires
            !self.spec_is_array(),
            index < self.components().len(),
        ensures
            r == self.components()[index as int],
    {
        match &self.reference_type {
            ReferenceType::Object(fields) => fields[index],
            ReferenceType::Array(_, _, content) => content[index],
        }
    }

    /// The reference in the field `index`; an error for an array or another kind of
    /// value.
    pub fn get_ref_field(&self, index: usize) -> (r: Result<RefId, VmError>)
        requires
            !self.spec_is_array() ==> index < self.components().len(),
        ensures
            match r {
                Ok(id) => !self.spec_is_array() && self.components()[index as int] == Value::Reference(id),
                Err(e) => (self.spec_is_array() || !(self.components()[index as int] is Reference))
                    && e is ValidationError,
            },
    {
        match &self.reference_type {
            ReferenceType::Object(fields) => {
                if let Value::Reference(inner) = fields[index] {
                    Ok(inner)
                } else {
                    Err(VmError::ValidationError("Expected Reference field".to_string()))
                }
            },
            ReferenceType::Array(..) => Err(
                VmError::ValidationError("This reference represents an array, please use 'get_element()'".to_string()),
            ),
        }
    }

    /// The int in the field `index`; an error for an array or another kind of value.
    pub fn get_int_field(&self, index: usize) -> (r: Result<i32, VmError>)
        requires
            !self.spec_is_array() ==> index < self.components().len(),
        ensures
            match r {
                Ok(v) => !self.spec_is_array() && self.components()[index as int] == Value::Integer(v),
                Err(e) => (self.spec_is_array() || !(self.components()[index as int] is Integer))
                    && e is ValidationError,
            },
    {
        match &self.reference_type {
            ReferenceType::Object(fields) => {
                if let Value::Integer(inner) = fields[index] {
                    Ok(inner)
                } else {
                    Err(VmError::ValidationError("Expected Integer field".to_string()))
                }
            },
            ReferenceType::Array(..) => Err(
                VmError::ValidationError("This reference represents an array, please use 'get_element()'".to_string()),
            ),
        }
    }

    /// The long in the field `index`; an error for an array or another kind of value.
    pub fn get_long_field(&self, index: usize) -> (r: Result<i64, VmError>)
        requires
            !self.spec_is_array() ==> index < self.components().len(),
        ensures
            match r {
                Ok(v) => !self.spec_is_array() && self.components()[index as int] == Value::Long(v),
                Err(e) => (self.spec_is_array() || !(self.components()[index as int] is Long))
                    && e is ValidationError,
            },
    {
        match &self.reference_type {
            ReferenceType::Object(fields) => {
                if let Value::Long(inner) = fields[index] {
                    Ok(inner)
                } else {
                    Err(VmError::ValidationError("Expected Long field".to_string()))
                }
            },
            ReferenceType::Array(..) => Err(
                VmError::ValidationError("This reference represents an array, please use 'get_element()'".to_string()),
            ),
        }
    }

    /// Sets the element `index` of an array. An object, or an element that does not
    /// exist, panics; that is left out by the precondition.
    pub fn set_element(&mut self, index: usize, value: Value)
        requires
            old(self).spec_is_array(),
            index < old(self).components().len(),
        ensures
            ReferenceValue::updated(old(self), final(self), index as int, value),
            final(self).spec_is_array(),
            final(self).spec_id() == old(self).spec_id(),
            final(self).components() == old(self).components().update(index as int, value),
    {
        match &mut self.reference_type {
            ReferenceType::Object(_) => {},
            ReferenceType::Array(_, _, content) => {
                content.set(index, value);
            },
        }
    }

    /// The element `index` of an array. An object, or an element that does not exist,
    /// panics; that is left out by the precondition.
    pub fn get_element(&self, index: usize) -> (r: Value)
        requires
            self.spec_is_array(),
            index < self.components().len(),
        ensures
            r == self.components()[index as int],
    {
        match &self.reference_type {
            ReferenceType::Object(fields) => fields[index],
            ReferenceType::Array(_, _, content) => content[index],
        }
    }

    /// The number of elements of an array. An object panics; that is left out by the
    /// precondition.
    pub fn get_length(&self) -> (r: usize)
        requires
            self.spec_is_array(),
        ensures
            r == self.components().len(),
    {
        match &self.reference_type {
            ReferenceType::Object(fields) => fields.len(),
            ReferenceType::Array(_, _, content) => content.len(),
        }
    }

    pub fn is_array(&self) -> (r: bool)
        ensures
            r == self.spec_is_array(),
    {
        match self.reference_type {
            ReferenceType::Array(_, _, _) => true,
            ReferenceType::Object(_) => false,
        }
    }

    pub fn is_object(&self) -> (r: bool)
        ensures
            r == !self.spec_is_array(),
    {
        match self.reference_type {
            ReferenceType::Array(_, _, _) => false,
            ReferenceType::Object(_) => true,
        }
    }

    /// True for the object standing for `null`.
    pub fn is_null(&self) -> (r: bool)
        ensures
            r == (self.spec_id().0 == 0),
    {
        self.id.is_null()
    }
}

impl PartialEq for ReferenceValue {
    fn eq(&self, other: &Self) -> (r: bool) {
        self.id == other.id
    }
}

impl vstd::std_specs::cmp::PartialEqSpecImpl for ReferenceValue {
    open spec fn obeys_eq_spec() -> bool {
        true
    }

    open spec fn eq_spec(&self, other: &Self) -> bool {
        self.spec_id() == other.spec_id()
    }
}

/// A field or element of a heap object reads back the value last written to it, and
/// writing leaves the object's identity, kind and other components alone.
pub proof fn law_component_read_after_write(
    before: ReferenceValue,
    after: ReferenceValue,
    index: int,
    other: int,
    value: Value,
)
    requires
        0 <= index < before.components().len(),
        0 <= other < before.components().len(),
        other != index,
        ReferenceValue::updated(&before, &after, index, value),
    ensures
        after.components()[index] == value,
        after.components()[other] == before.components()[other],
        after.components().len() == before.components().len(),
        after.spec_id() == before.spec_id(),
        after.spec_is_array() == before.spec_is_array(),
{
}

/// The written component reads back the value written, and the object keeps its number
/// of components and its kind.
pub proof fn law_written_component_reads_back(before: ReferenceValue, after: ReferenceValue, index: int, value: Value)
    requires
        0 <= index < before.components().len(),
        ReferenceValue::updated(&before, &after, index, value),
    ensures
        after.components()[index] == value,
        after.components().len() == before.components().len(),
        after.spec_is_array() == before.spec_is_array(),
{
}

} // verus!
