use vstd::prelude::*;

use crate::access_flags::{ClassFlag, ClassFlags};
use crate::constants::{
    entry_at, member_ref_named, spec_constant_utf8, spec_member_ref, utf8_resolves, ConstantPool,
    ConstantPoolEntry,
};
use crate::field_info::{FieldInfo, FieldType, PrimitiveType};
use crate::method_info::MethodInfo;
use crate::vm::value::{RefId, Value};

verus! {

/// The identity of a loaded class.
#[derive(Debug, PartialEq, Eq, Structural, Clone, Copy, Hash)]
pub struct ClassId(pub u32);

/// What an array class is made of: its number of dimensions and its innermost component.
#[derive(Debug)]
pub struct ArrayInfo {
    pub(crate) dims: usize,
    pub(crate) component_type: FieldType,
}

impl ArrayInfo {
    /// The number of dimensions.
    pub closed spec fn spec_dims(&self) -> usize {
        self.dims
    }

    /// The innermost component type.
    pub closed spec fn spec_component_type(&self) -> FieldType {
        self.component_type
    }

    /// An array of `dims` dimensions of `component_type`.
    pub(crate) fn new(dims: usize, component_type: FieldType) -> (r: Self)
        ensures
            r.spec_dims() == dims,
            r.spec_component_type() == component_type,
    {
        ArrayInfo { dims, component_type }
    }

    /// The number of dimensions.
    pub fn dims(&self) -> (r: usize)
        ensures
            r == self.spec_dims(),
    {
        self.dims
    }

    /// The innermost component type.
    pub fn component_type(&self) -> (r: &FieldType)
        ensures
            *r == self.spec_component_type(),
    {
        &self.component_type
    }
}

/// A method, named by its class and its position in that class's method table.
#[derive(Debug, PartialEq, Eq, Structural, Clone, Copy, Hash)]
pub struct ClassAndMethodId {
    pub class_id: ClassId,
    pub method_index: u32,
}

} // verus!

verus! {

/// True when the two texts are equal.
pub fn same_text(a: &str, b: &str) -> (r: bool)
    ensures
        r == (a@ == b@),
{
    let n = a.unicode_len();
    if n != b.unicode_len() {
        return false;
    }
    let mut i: usize = 0;
    while i < n
        invariant
            n == a@.len(),
            n == b@.len(),
            i <= n,
            forall|j: int| 0 <= j < i ==> a@[j] == b@[j],
        decreases n - i,
    {
        if a.get_char(i) != b.get_char(i) {
            return false;
        }
        i = i + 1;
    }
    assert(a@ =~= b@);
    true
}

/// True when `m` is named `name` and has exactly the descriptor `descriptor`.
pub open spec fn method_matches(m: MethodInfo, name: Seq<char>, descriptor: Seq<char>) -> bool {
    m.name@ == name && m.descriptor.spec_raw() == descriptor
}

/// The position of the first field of `fields` named `name`, if any.
pub open spec fn first_field_named(fields: Seq<FieldInfo>, name: Seq<char>) -> Option<int> {
    if exists|i: int| 0 <= i < fields.len() && #[trigger] fields[i].name@ == name {
        Some(
            choose|i: int|
                0 <= i < fields.len() && #[trigger] fields[i].name@ == name && forall|j: int|
                    0 <= j < i ==> #[trigger] fields[j].name@ != name,
        )
    } else {
        None
    }
}

proof fn lemma_first_field_named(fields: Seq<FieldInfo>, name: Seq<char>, i: int)
    requires
        0 <= i < fields.len(),
        fields[i].name@ == name,
        forall|j: int| 0 <= j < i ==> #[trigger] fields[j].name@ != name,
    ensures
        first_field_named(fields, name) == Some(i),
{
    let k = choose|k: int|
        0 <= k < fields.len() && #[trigger] fields[k].name@ == name && forall|j: int|
            0 <= j < k ==> #[trigger] fields[j].name@ != name;
    if k < i {
        assert(fields[k].name@ != name);
    }
    if i < k {
        assert(fields[i].name@ != name);
    }
}

/// The methods of `methods` named `name`, in order.
pub open spec fn methods_named(methods: Seq<MethodInfo>, name: Seq<char>) -> Seq<MethodInfo>
    decreases methods.len(),
{
    if methods.len() == 0 {
        Seq::empty()
    } else {
        let rest = methods_named(methods.drop_last(), name);
        if methods.last().name@ == name {
            rest.push(methods.last())
        } else {
            rest
        }
    }
}

/// A loaded class: its members, its constant pool and its place among its superclasses.
pub struct Class<'a> {
    pub id: ClassId,
    pub name: String,
    pub source_file: Option<String>,
    pub constants: ConstantPool,
    pub flags: ClassFlags,
    pub superclass: Option<&'a Class<'a>>,
    pub interfaces: Vec<&'a Class<'a>>,
    pub fields: Vec<FieldInfo>,
    pub methods: Vec<MethodInfo>,
    pub transitive_field_count: usize,
    pub first_field_index: usize,
    pub array_info: Option<ArrayInfo>,
}

/// The value a constant pool entry stands for when it is loaded: numbers as they are, a
/// string constant as the null reference, no entry as an uninitialised value.
pub open spec fn spec_constant_value(entry: Option<ConstantPoolEntry>) -> Value {
    match entry {
        Some(ConstantPoolEntry::Integer(v)) => Value::Integer(v),
        Some(ConstantPoolEntry::Long(v)) => Value::Long(v),
        Some(ConstantPoolEntry::Float(v)) => Value::Float(v),
        Some(ConstantPoolEntry::Double(v)) => Value::Double(v),
        Some(ConstantPoolEntry::String(_)) => Value::Reference(RefId(0)),
        _ => Value::Uninitialized,
    }
}

/// True when the constant, if there is one, is of a kind that can be loaded as a value.
pub open spec fn loadable_constant(entry: Option<ConstantPoolEntry>) -> bool {
    match entry {
        Some(ConstantPoolEntry::Integer(_)) => true,
        Some(ConstantPoolEntry::Long(_)) => true,
        Some(ConstantPoolEntry::Float(_)) => true,
        Some(ConstantPoolEntry::Double(_)) => true,
        Some(ConstantPoolEntry::String(_)) => true,
        Some(_) => false,
        None => true,
    }
}


/// The value a field starts with when it has no constant value: zero of its type, or the
/// null reference.
pub open spec fn spec_default_value(t: FieldType) -> Value {
    match t {
        FieldType::Primitive(PrimitiveType::Long) => Value::Long(0),
        FieldType::Primitive(PrimitiveType::Float) => Value::Float(0),
        FieldType::Primitive(PrimitiveType::Double) => Value::Double(0),
        FieldType::Primitive(_) => Value::Integer(0),
        FieldType::Object(_) => Value::Reference(RefId(0)),
    }
}

/// A field declared with a primitive descriptor letter starts as the zero of that
/// letter's kind of value: `J` a long, `F` a float, `D` a double, and the other letters
/// (`Z`, `B`, `S`, `I`, `C`) an int.
pub proof fn law_descriptor_zero(c: char)
    requires
        crate::field_info::is_primitive_char(c),
    ensures
        spec_default_value(FieldType::Primitive(crate::field_info::spec_primitive_of(c))) == if c == 'J' {
            Value::Long(0)
        } else if c == 'F' {
            Value::Float(0)
        } else if c == 'D' {
            Value::Double(0)
        } else {
            Value::Integer(0)
        },
{
}

/// The value a field starts with when it has no constant value.
pub fn default_value(t: &FieldType) -> (r: Value)
    ensures
        r == spec_default_value(*t),
{
    match t {
        FieldType::Primitive(primitive) => match primitive {
            PrimitiveType::Boolean => Value::Integer(0),
            PrimitiveType::Byte => Value::Integer(0),
            PrimitiveType::Short => Value::Integer(0),
            PrimitiveType::Integer => Value::Integer(0),
            PrimitiveType::Long => Value::Long(0),
            PrimitiveType::Float => Value::Float(0),
            PrimitiveType::Double => Value::Double(0),
            PrimitiveType::Char => Value::Integer(0),
        },
        FieldType::Object(_) => Value::Reference(RefId(0)),
    }
}

/// The value `field` starts with in an object whose class has the constant pool `pool`.
pub open spec fn spec_initial_value(pool: Seq<ConstantPoolEntry>, field: FieldInfo) -> Value {
    match field.constant_value {
        Some(cv) => spec_constant_value(entry_at(pool, cv.constant_index as int)),
        None => spec_default_value(field.field_type),
    }
}

/// True when `field` can be given its starting value from `pool`.
pub open spec fn initial_value_loadable(pool: Seq<ConstantPoolEntry>, field: FieldInfo) -> bool {
    match field.constant_value {
        Some(cv) => cv.constant_index >= 1 && loadable_constant(entry_at(pool, cv.constant_index as int)),
        None => true,
    }
}

impl<'a> Class<'a> {
    /// The number of superclasses above this class.
    pub open spec fn depth(&self) -> nat
        decreases self,
    {
        match self.superclass {
            Some(s) => 1 + s.depth(),
            None => 0,
        }
    }

    /// True when numbering the fields of this class and of its superclasses does not
    /// overflow.
    pub open spec fn field_numbers_fit(&self) -> bool
        decreases self,
    {
        &&& self.first_field_index + self.fields@.len() <= usize::MAX
        &&& match self.superclass {
            Some(s) => s.field_numbers_fit(),
            None => true,
        }
    }

    /// Where the field named `name` is found: its number among the fields of the whole
    /// hierarchy, the field, and the class that declares it. The class's own fields are
    /// searched first, then those of its superclasses, nearest first.
    pub open spec fn spec_find_field(&self, name: Seq<char>) -> Option<(int, FieldInfo, ClassId)>
        decreases self,
    {
        match first_field_named(self.fields@, name) {
            Some(i) => Some((i + self.first_field_index, self.fields@[i], self.id)),
            None => match self.superclass {
                Some(s) => s.spec_find_field(name),
                None => None,
            },
        }
    }

    /// The first method named `method_name` whose descriptor is exactly `descriptor`.
    pub fn find_method(&self, method_name: &str, descriptor: &str) -> (r: Option<&MethodInfo>)
        ensures
            match r {
                Some(m) => exists|i: int|
                    0 <= i < self.methods@.len() && self.methods@[i] == *m && method_matches(
                        self.methods@[i],
                        method_name@,
                        descriptor@,
                    ) && forall|j: int|
                        0 <= j < i ==> !method_matches(
                            #[trigger] self.methods@[j],
                            method_name@,
                            descriptor@,
                        ),
                None => forall|i: int|
                    0 <= i < self.methods@.len() ==> !method_matches(
                        #[trigger] self.methods@[i],
                        method_name@,
                        descriptor@,
                    ),
            },
    {
        let mut i: usize = 0;
        while i < self.methods.len()
            invariant
                i <= self.methods@.len(),
                forall|j: int|
                    0 <= j < i ==> !method_matches(
                        #[trigger] self.methods@[j],
                        method_name@,
                        descriptor@,
                    ),
            decreases self.methods@.len() - i,
        {
            let m = &self.methods[i];
            if same_text(m.name.as_str(), method_name) && m.descriptor.matches(descriptor) {
                return Some(m);
            }
            i = i + 1;
        }
        None
    }

    /// Where the field named `field_name` is found, and the class that declares it.
    pub fn find_field_static(&self, field_name: &str) -> (r: Option<(usize, &FieldInfo, ClassId)>)
        requires
            self.field_numbers_fit(),
            self.depth() < usize::MAX,
        ensures
            match r {
                Some((index, info, id)) => self.spec_find_field(field_name@) == Some(
                    (index as int, *info, id),
                ),
                None => self.spec_find_field(field_name@) is None,
            },
        decreases self.depth(),
    {
        assert(self.first_field_index + self.fields@.len() <= usize::MAX);
        let mut i: usize = 0;
        while i < self.fields.len()
            invariant
                i <= self.fields@.len(),
                self.first_field_index + self.fields@.len() <= usize::MAX,
                forall|j: int| 0 <= j < i ==> #[trigger] self.fields@[j].name@ != field_name@,
            decreases self.fields@.len() - i,
        {
            if same_text(self.fields[i].name.as_str(), field_name) {
                proof {
                    lemma_first_field_named(self.fields@, field_name@, i as int);
                }
                return Some((i + self.first_field_index, &self.fields[i], self.id));
            }
            i = i + 1;
        }
        proof {
            assert(!(exists|j: int|
                0 <= j < self.fields@.len() && #[trigger] self.fields@[j].name@ == field_name@));
        }
        match self.superclass {
            Some(superclass) => superclass.find_field_static(field_name),
            None => None,
        }
    }

    /// Where the field named `field_name` is found.
    pub fn find_field(&self, field_name: &str) -> (r: Option<(usize, &FieldInfo)>)
        requires
            self.field_numbers_fit(),
            self.depth() < usize::MAX,
        ensures
            match r {
                Some((index, info)) => self.spec_find_field(field_name@) matches Some(
                    (i, f, _),
                ) && i == index && f == *info,
                None => self.spec_find_field(field_name@) is None,
            },
    {
        if let Some((index, info, _)) = self.find_field_static(field_name) {
            Some((index, info))
        } else {
            None
        }
    }

    /// True when the class is an interface.
    pub fn is_interface(&self) -> (r: bool)
        ensures
            r == self.flags@.contains(ClassFlag::Interface),
    {
        let mut i: usize = 0;
        while i < self.flags.len()
            invariant
                i <= self.flags@.len(),
                forall|j: int| 0 <= j < i ==> self.flags@[j] != ClassFlag::Interface,
            decreases self.flags@.len() - i,
        {
            if self.flags[i] == ClassFlag::Interface {
                return true;
            }
            i = i + 1;
        }
        false
    }

    /// True when the class is an array class, whose name starts with `[`.
    pub fn is_array(&self) -> (r: bool)
        ensures
            r == (self.name@.len() > 0 && self.name@[0] == '['),
    {
        let name = self.name.as_str();
        name.unicode_len() > 0 && name.get_char(0) == '['
    }

    /// The constant pool entry with the number `index`.
    pub fn get_constant(&self, index: u16) -> (r: Option<ConstantPoolEntry>)
        requires
            index >= 1,
        ensures
            r == entry_at(self.constants.0@, index as int),
    {
        self.constants.get_constant(index)
    }

    /// The value the constant `index` stands for when it is loaded. Loading a constant of
    /// another kind panics, so that is left out by the precondition.
    pub fn get_constant_as_value(&self, index: u16) -> (r: Value)
        requires
            index >= 1,
            loadable_constant(entry_at(self.constants.0@, index as int)),
        ensures
            r == spec_constant_value(entry_at(self.constants.0@, index as int)),
    {
        match self.get_constant(index) {
            Some(ConstantPoolEntry::Integer(value)) => Value::Integer(value),
            Some(ConstantPoolEntry::Long(value)) => Value::Long(value),
            Some(ConstantPoolEntry::Float(value)) => Value::Float(value),
            Some(ConstantPoolEntry::Double(value)) => Value::Double(value),
            Some(ConstantPoolEntry::String(_)) => Value::Reference(RefId(0)),
            Some(_) => {
                proof {
                    assert(false);
                }
                Value::Uninitialized
            },
            None => Value::Uninitialized,
        }
    }

    /// The number of fields this class itself adds to an object.
    pub open spec fn own_field_count(&self) -> int {
        if self.transitive_field_count >= self.first_field_index {
            self.transitive_field_count - self.first_field_index
        } else {
            0
        }
    }

    /// True when every field of an object of this class can be given its starting value:
    /// the field numbers of the class name its own fields, and their constant values are
    /// loadable, here and in every superclass.
    pub open spec fn fields_loadable(&self) -> bool
        decreases self,
    {
        &&& self.own_field_count() <= self.fields@.len()
        &&& forall|k: int|
            0 <= k < self.own_field_count() ==> initial_value_loadable(
                self.constants.0@,
                #[trigger] self.fields@[k],
            )
        &&& match self.superclass {
            Some(s) => s.fields_loadable(),
            None => true,
        }
    }

    /// The starting values of the fields of an object of this class: those of the
    /// superclasses first, then those the class adds.
    pub open spec fn spec_fields(&self) -> Seq<Value>
        decreases self,
    {
        let inherited = match self.superclass {
            Some(s) => s.spec_fields(),
            None => Seq::empty(),
        };
        inherited + Seq::new(
            self.own_field_count() as nat,
            |k: int| spec_initial_value(self.constants.0@, self.fields@[k]),
        )
    }

    /// The starting values of the fields of an object of this class: a field's constant
    /// value if it has one, zero of its type otherwise; the superclasses' fields first.
    pub fn get_fields(&self) -> (r: Vec<Value>)
        requires
            self.fields_loadable(),
            self.depth() < usize::MAX,
        ensures
            r@ == self.spec_fields(),
        decreases self.depth(),
    {
        let mut values = match self.superclass {
            Some(superclass) => superclass.get_fields(),
            None => Vec::new(),
        };
        let ghost inherited = values@;
        let mut index = self.first_field_index;
        while index < self.transitive_field_count
            invariant
                self.fields_loadable(),
                self.first_field_index <= index,
                index <= self.transitive_field_count || self.transitive_field_count < self.first_field_index,
                self.transitive_field_count < self.first_field_index ==> index == self.first_field_index,
                values@ == inherited + Seq::new(
                    (index - self.first_field_index) as nat,
                    |k: int| spec_initial_value(self.constants.0@, self.fields@[k]),
                ),
            decreases self.transitive_field_count - index,
        {
            let k = index - self.first_field_index;
            assert(0 <= k < self.own_field_count());
            let field = &self.fields[k];
            assert(initial_value_loadable(self.constants.0@, self.fields@[k as int]));
            let value = match &field.constant_value {
                Some(constant_value) => self.get_constant_as_value(constant_value.constant_index),
                None => default_value(&field.field_type),
            };
            values.push(value);
            index = index + 1;
            assert(values@ =~= inherited + Seq::new(
                (index - self.first_field_index) as nat,
                |k: int| spec_initial_value(self.constants.0@, self.fields@[k]),
            ));
        }
        assert(values@ =~= self.spec_fields());
        values
    }

    /// The constructors of the class, in declaration order.
    pub fn get_constructors(&self) -> (r: Vec<&MethodInfo>)
        ensures
            r@.len() == methods_named(self.methods@, "<init>"@).len(),
            forall|i: int| 0 <= i < r@.len() ==> *r@[i] == methods_named(self.methods@, "<init>"@)[i],
    {
        let mut constructors: Vec<&MethodInfo> = Vec::new();
        let mut i: usize = 0;
        while i < self.methods.len()
            invariant
                i <= self.methods@.len(),
                constructors@.len() == methods_named(self.methods@.take(i as int), "<init>"@).len(),
                forall|k: int|
                    0 <= k < constructors@.len() ==> *constructors@[k] == methods_named(
                        self.methods@.take(i as int),
                        "<init>"@,
                    )[k],
            decreases self.methods@.len() - i,
        {
            let method = &self.methods[i];
            proof {
                assert(self.methods@.take(i + 1).drop_last() =~= self.methods@.take(i as int));
            }
            if same_text(method.name.as_str(), "<init>") {
                constructors.push(method);
            }
            i = i + 1;
        }
        proof {
            assert(self.methods@.take(self.methods@.len() as int) =~= self.methods@);
        }
        constructors
    }

    /// The field with the number `index` among the fields of the whole hierarchy.
    pub open spec fn spec_field_at(&self, index: int) -> Option<FieldInfo>
        decreases self,
    {
        if index < self.first_field_index {
            match self.superclass {
                Some(s) => s.spec_field_at(index),
                None => None,
            }
        } else if index - self.first_field_index < self.fields@.len() {
            Some(self.fields@[index - self.first_field_index])
        } else {
            None
        }
    }

    /// The field with the number `index` among the fields of the whole hierarchy: a
    /// superclass's field below this class's first number, one of its own above.
    pub fn field_at_index(&self, index: usize) -> (r: Option<&FieldInfo>)
        requires
            self.depth() < usize::MAX,
        ensures
            match r {
                Some(f) => self.spec_field_at(index as int) == Some(*f),
                None => self.spec_field_at(index as int) is None,
            },
        decreases self.depth(),
    {
        if index < self.first_field_index {
            match self.superclass {
                Some(superclass) => superclass.field_at_index(index),
                None => None,
            }
        } else {
            let k = index - self.first_field_index;
            if k < self.fields.len() {
                Some(&self.fields[k])
            } else {
                None
            }
        }
    }
}

/// A method together with the class that declares it.
pub struct ClassAndMethod<'a> {
    pub class: &'a Class<'a>,
    pub method: &'a MethodInfo,
}

impl<'a> ClassAndMethod<'a> {
    /// The text that the constant `index` of the class names.
    pub fn get_constant_utf8(&self, index: u16) -> (r: Option<String>)
        requires
            utf8_resolves(self.class.constants.0@, index as int),
        ensures
            match r {
                Some(s) => spec_constant_utf8(self.class.constants.0@, index as int) == Some(s@),
                None => spec_constant_utf8(self.class.constants.0@, index as int) is None,
            },
    {
        self.class.constants.get_constant_utf8(index)
    }

    /// The value the constant `index` of the class stands for when it is loaded.
    pub fn get_constant_as_value(&self, index: u16) -> (r: Value)
        requires
            index >= 1,
            loadable_constant(entry_at(self.class.constants.0@, index as int)),
        ensures
            r == spec_constant_value(entry_at(self.class.constants.0@, index as int)),
    {
        self.class.get_constant_as_value(index)
    }

    /// The class name, method name and descriptor of the method reference at `index`.
    pub fn get_constant_method_info_descriptor(&self, index: u16) -> (r: Option<
        (String, String, String),
    >)
        requires
            index >= 1,
            member_ref_named(self.class.constants.0@, index as int, true),
        ensures
            match r {
                Some((c, n, d)) => spec_member_ref(self.class.constants.0@, index as int, true)
                    == Some((c@, n@, d@)),
                None => spec_member_ref(self.class.constants.0@, index as int, true) is None,
            },
    {
        self.class.constants.get_constant_method_info_descriptor(index)
    }

    /// The class name, field name and descriptor of the field reference at `index`.
    pub fn get_constant_field_info_descriptor(&self, index: u16) -> (r: Option<
        (String, String, String),
    >)
        requires
            index >= 1,
            member_ref_named(self.class.constants.0@, index as int, false),
        ensures
            match r {
                Some((c, n, d)) => spec_member_ref(self.class.constants.0@, index as int, false)
                    == Some((c@, n@, d@)),
                None => spec_member_ref(self.class.constants.0@, index as int, false) is None,
            },
    {
        self.class.constants.get_constant_field_info_descriptor(index)
    }

    /// The number of local variable slots the method's code declares; 0 without code.
    pub fn get_max_locals(&self) -> (r: usize)
        ensures
            r == match self.method.code {
                Some(code) => code.max_locals as int,
                None => 0,
            },
    {
        if let Some(code) = &self.method.code {
            code.max_locals as usize
        } else {
            0
        }
    }

    /// The number of operand stack slots the method's code declares; 0 without code.
    pub fn get_max_stack_size(&self) -> (r: usize)
        ensures
            r == match self.method.code {
                Some(code) => code.max_stack as int,
                None => 0,
            },
    {
        if let Some(code) = &self.method.code {
            code.max_stack as usize
        } else {
            0
        }
    }

    /// The method written as class name, a dot, method name and descriptor.
    pub fn format(&self) -> (r: String)
        ensures
            r@ == self.class.name@ + seq!['.'] + self.method.name@ + self.method.descriptor.spec_raw(),
    {
        let mut r = String::new();
        r.append(self.class.name.as_str());
        r.append(".");
        r.append(self.method.name.as_str());
        r.append(self.method.descriptor.as_str());
        proof {
            reveal_strlit(".");
        }
        assert(r@ =~= self.class.name@ + seq!['.'] + self.method.name@ + self.method.descriptor.spec_raw());
        r
    }
}

} // verus!
