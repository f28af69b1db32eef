use vstd::prelude::*;

verus! {

/// An entry of a class file's constant pool. Floats are held as their IEEE 754 bit
/// patterns; `Dummy` fills the slot after a `Long` or `Double`.
#[derive(Debug, PartialEq)]
pub enum ConstantPoolEntry {
    Class(u16),
    Fieldref(u16, u16),
    Methodref(u16, u16),
    InterfaceMethodref(u16, u16),
    String(u16),
    Integer(i32),
    Float(u32),
    Long(i64),
    Double(u64),
    NameAndType(u16, u16),
    Utf8(String),
    MethodHandle,
    MethodType,
    InvokeDynamic(u16, u16),
    Dummy,
}

impl ConstantPoolEntry {
    /// The tag that marks the entry in a class file.
    pub open spec fn spec_tag(&self) -> u8 {
        match self {
            ConstantPoolEntry::Class(..) => 7,
            ConstantPoolEntry::Fieldref(..) => 9,
            ConstantPoolEntry::Methodref(..) => 10,
            ConstantPoolEntry::InterfaceMethodref(..) => 11,
            ConstantPoolEntry::String(..) => 8,
            ConstantPoolEntry::Integer(..) => 3,
            ConstantPoolEntry::Float(..) => 4,
            ConstantPoolEntry::Long(..) => 5,
            ConstantPoolEntry::Double(..) => 6,
            ConstantPoolEntry::NameAndType(..) => 12,
            ConstantPoolEntry::Utf8(..) => 1,
            ConstantPoolEntry::MethodHandle => 15,
            ConstantPoolEntry::MethodType => 16,
            ConstantPoolEntry::InvokeDynamic(..) => 18,
            ConstantPoolEntry::Dummy => 255,
        }
    }

    /// The tag that marks the entry in a class file.
    pub fn tag(&self) -> (r: u8)
        ensures
            r == self.spec_tag(),
    {
        match self {
            ConstantPoolEntry::Class(..) => 7,
            ConstantPoolEntry::Fieldref(..) => 9,
            ConstantPoolEntry::Methodref(..) => 10,
            ConstantPoolEntry::InterfaceMethodref(..) => 11,
            ConstantPoolEntry::String(..) => 8,
            ConstantPoolEntry::Integer(..) => 3,
            ConstantPoolEntry::Float(..) => 4,
            ConstantPoolEntry::Long(..) => 5,
            ConstantPoolEntry::Double(..) => 6,
            ConstantPoolEntry::NameAndType(..) => 12,
            ConstantPoolEntry::Utf8(..) => 1,
            ConstantPoolEntry::MethodHandle => 15,
            ConstantPoolEntry::MethodType => 16,
            ConstantPoolEntry::InvokeDynamic(..) => 18,
            ConstantPoolEntry::Dummy => 255,
        }
    }

    /// A copy of the entry.
    pub fn duplicate(&self) -> (r: Self)
        ensures
            r == *self,
    {
        match self {
            ConstantPoolEntry::Class(a) => ConstantPoolEntry::Class(*a),
            ConstantPoolEntry::Fieldref(a, b) => ConstantPoolEntry::Fieldref(*a, *b),
            ConstantPoolEntry::Methodref(a, b) => ConstantPoolEntry::Methodref(*a, *b),
            ConstantPoolEntry::InterfaceMethodref(a, b) => ConstantPoolEntry::InterfaceMethodref(
                *a,
                *b,
            ),
            ConstantPoolEntry::String(a) => ConstantPoolEntry::String(*a),
            ConstantPoolEntry::Integer(v) => ConstantPoolEntry::Integer(*v),
            ConstantPoolEntry::Float(v) => ConstantPoolEntry::Float(*v),
            ConstantPoolEntry::Long(v) => ConstantPoolEntry::Long(*v),
            ConstantPoolEntry::Double(v) => ConstantPoolEntry::Double(*v),
            ConstantPoolEntry::NameAndType(a, b) => ConstantPoolEntry::NameAndType(*a, *b),
            ConstantPoolEntry::Utf8(s) => ConstantPoolEntry::Utf8(s.clone()),
            ConstantPoolEntry::MethodHandle => ConstantPoolEntry::MethodHandle,
            ConstantPoolEntry::MethodType => ConstantPoolEntry::MethodType,
            ConstantPoolEntry::InvokeDynamic(a, b) => ConstantPoolEntry::InvokeDynamic(*a, *b),
            ConstantPoolEntry::Dummy => ConstantPoolEntry::Dummy,
        }
    }
}

/// The entry with the (one-based) number `index` in `pool`, if there is one.
pub open spec fn entry_at(pool: Seq<ConstantPoolEntry>, index: int) -> Option<ConstantPoolEntry> {
    if 1 <= index <= pool.len() {
        Some(pool[index - 1])
    } else {
        None
    }
}

/// The text that the constant `index` names, following `String` and `Class` entries to
/// the `Utf8` entry they refer to, in at most `fuel` steps. `None` when the steps run
/// out or an entry refers to the number 0; `Some(None)` when the chain ends at an
/// entry that names no text.
pub open spec fn utf8_steps(pool: Seq<ConstantPoolEntry>, index: int, fuel: nat) -> Option<
    Option<Seq<char>>,
>
    decreases fuel,
{
    if index == 0 {
        None
    } else {
        match entry_at(pool, index) {
            Some(ConstantPoolEntry::Utf8(s)) => Some(Some(s@)),
            Some(ConstantPoolEntry::String(i)) => if fuel == 0 {
                None
            } else {
                utf8_steps(pool, i as int, (fuel - 1) as nat)
            },
            Some(ConstantPoolEntry::Class(i)) => if fuel == 0 {
                None
            } else {
                utf8_steps(pool, i as int, (fuel - 1) as nat)
            },
            _ => Some(None),
        }
    }
}

/// True when looking up the text of the constant `index` comes to an end: the chain of
/// `String` and `Class` entries neither refers to the number 0 nor goes round in a
/// circle.
pub open spec fn utf8_resolves(pool: Seq<ConstantPoolEntry>, index: int) -> bool {
    utf8_steps(pool, index, pool.len()) is Some
}

/// The text that the constant `index` names, if the lookup comes to an end.
pub open spec fn spec_constant_utf8(pool: Seq<ConstantPoolEntry>, index: int) -> Option<Seq<char>> {
    utf8_steps(pool, index, pool.len()).unwrap()
}

/// The numbers of the class, name and descriptor that the member reference at `index`
/// refers to, when `index` holds a reference of the kind `methods` asks for (a method
/// or interface method reference, or a field reference) whose second part is a
/// `NameAndType` entry.
pub open spec fn member_ref_parts(pool: Seq<ConstantPoolEntry>, index: int, methods: bool) -> Option<
    (int, int, int),
> {
    let refs: Option<(u16, u16)> = match entry_at(pool, index) {
        Some(ConstantPoolEntry::Methodref(c, n)) => if methods {
            Some((c, n))
        } else {
            None
        },
        Some(ConstantPoolEntry::InterfaceMethodref(c, n)) => if methods {
            Some((c, n))
        } else {
            None
        },
        Some(ConstantPoolEntry::Fieldref(c, n)) => if methods {
            None
        } else {
            Some((c, n))
        },
        _ => None,
    };
    match refs {
        Some((c, n)) => match entry_at(pool, n as int) {
            Some(ConstantPoolEntry::NameAndType(name, descriptor)) => Some(
                (c as int, name as int, descriptor as int),
            ),
            _ => None,
        },
        None => None,
    }
}

/// True when each of the three parts of the member reference at `index` names a text.
pub open spec fn member_ref_named(pool: Seq<ConstantPoolEntry>, index: int, methods: bool) -> bool {
    member_ref_parts(pool, index, methods) matches Some((c, n, d)) ==> {
        &&& utf8_steps(pool, c, pool.len()) matches Some(Some(_))
        &&& utf8_steps(pool, n, pool.len()) matches Some(Some(_))
        &&& utf8_steps(pool, d, pool.len()) matches Some(Some(_))
    }
}

/// The class, name and descriptor texts of the member reference at `index`.
pub open spec fn spec_member_ref(pool: Seq<ConstantPoolEntry>, index: int, methods: bool) -> Option<
    (Seq<char>, Seq<char>, Seq<char>),
> {
    match member_ref_parts(pool, index, methods) {
        Some((c, n, d)) => Some(
            (
                spec_constant_utf8(pool, c).unwrap(),
                spec_constant_utf8(pool, n).unwrap(),
                spec_constant_utf8(pool, d).unwrap(),
            ),
        ),
        None => None,
    }
}

/// The constant pool of a class file, in file order; entry number `i` is at position
/// `i - 1`.
#[derive(Debug)]
pub struct ConstantPool(pub Vec<ConstantPoolEntry>);

impl ConstantPool {
    /// The entry with the number `index`, if there is one.
    pub fn get_constant(&self, index: u16) -> (r: Option<ConstantPoolEntry>)
        requires
            index >= 1,
        ensures
            r == entry_at(self.0@, index as int),
    {
        let i = (index - 1) as usize;
        if i < self.0.len() {
            Some(self.0[i].duplicate())
        } else {
            None
        }
    }

    /// The text that the constant `index` names: a `Utf8` entry's own text, or the text
    /// of the entry that a `String` or `Class` entry refers to.
    pub fn get_constant_utf8(&self, index: u16) -> (r: Option<String>)
        requires
            utf8_resolves(self.0@, index as int),
        ensures
            match r {
                Some(s) => spec_constant_utf8(self.0@, index as int) == Some(s@),
                None => spec_constant_utf8(self.0@, index as int) is None,
            },
    {
        let ghost pool = self.0@;
        let mut i: u16 = index;
        let mut fuel: usize = self.0.len();
        loop
            invariant
                pool == self.0@,
                fuel <= pool.len(),
                utf8_steps(pool, i as int, fuel as nat) == utf8_steps(pool, index as int, pool.len()),
                utf8_steps(pool, i as int, fuel as nat) is Some,
            decreases fuel,
        {
            let k = (i - 1) as usize;
            if k >= self.0.len() {
                return None;
            }
            match &self.0[k] {
                ConstantPoolEntry::Utf8(s) => {
                    return Some(s.clone());
                },
                ConstantPoolEntry::String(j) => {
                    i = *j;
                    fuel = fuel - 1;
                },
                ConstantPoolEntry::Class(j) => {
                    i = *j;
                    fuel = fuel - 1;
                },
                _ => {
                    return None;
                },
            }
        }
    }

    fn member_ref(&self, index: u16, methods: bool) -> (r: Option<(String, String, String)>)
        requires
            index >= 1,
            member_ref_named(self.0@, index as int, methods),
        ensures
            match r {
                Some((c, n, d)) => spec_member_ref(self.0@, index as int, methods) == Some(
                    (c@, n@, d@),
                ),
                None => spec_member_ref(self.0@, index as int, methods) is None,
            },
    {
        let refs: Option<(u16, u16)> = match self.get_constant(index) {
            Some(ConstantPoolEntry::Methodref(c, n)) => if methods {
                Some((c, n))
            } else {
                None
            },
            Some(ConstantPoolEntry::InterfaceMethodref(c, n)) => if methods {
                Some((c, n))
            } else {
                None
            },
            Some(ConstantPoolEntry::Fieldref(c, n)) => if methods {
                None
            } else {
                Some((c, n))
            },
            _ => None,
        };
        let (class_index, name_and_type_index) = match refs {
            Some(p) => p,
            None => {
                return None;
            },
        };
        if name_and_type_index == 0 {
            return None;
        }
        if let Some(ConstantPoolEntry::NameAndType(name_index, type_index)) = self.get_constant(
            name_and_type_index,
        ) {
            let class_name = self.get_constant_utf8(class_index);
            let member_name = self.get_constant_utf8(name_index);
            let descriptor = self.get_constant_utf8(type_index);
            match (class_name, member_name, descriptor) {
                (Some(c), Some(n), Some(d)) => Some((c, n, d)),
                _ => {
                    proof {
                        assert(false);
                    }
                    None
                },
            }
        } else {
            None
        }
    }

    /// The class name, method name and descriptor of the method or interface method
    /// reference at `index`; `None` when `index` holds no such reference or its second
    /// part is no `NameAndType` entry.
    pub fn get_constant_method_info_descriptor(&self, index: u16) -> (r: Option<
        (String, String, String),
    >)
        requires
            index >= 1,
            member_ref_named(self.0@, index as int, true),
        ensures
            match r {
                Some((c, n, d)) => spec_member_ref(self.0@, index as int, true) == Some(
                    (c@, n@, d@),
                ),
                None => spec_member_ref(self.0@, index as int, true) is None,
            },
    {
        self.member_ref(index, true)
    }

    /// The class name, field name and descriptor of the field reference at `index`;
    /// `None` when `index` holds no field reference or its second part is no
    /// `NameAndType` entry.
    pub fn get_constant_field_info_descriptor(&self, index: u16) -> (r: Option<
        (String, String, String),
    >)
        requires
            index >= 1,
            member_ref_named(self.0@, index as int, false),
        ensures
            match r {
                Some((c, n, d)) => spec_member_ref(self.0@, index as int, false) == Some(
                    (c@, n@, d@),
                ),
                None => spec_member_ref(self.0@, index as int, false) is None,
            },
    {
        self.member_ref(index, false)
    }
}

} // verus!
