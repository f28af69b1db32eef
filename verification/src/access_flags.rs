use vstd::prelude::*;

verus! {

/// The value of bit `i` of a 16-bit flag word.
pub open spec fn bit(i: int) -> u16 {
    (1u16 << (i as u16))
}

/// The sixteen single-bit values, in order.
pub proof fn lemma_bits()
    ensures
        bit(0) == 0x0001u16,
        bit(1) == 0x0002u16,
        bit(2) == 0x0004u16,
        bit(3) == 0x0008u16,
        bit(4) == 0x0010u16,
        bit(5) == 0x0020u16,
        bit(6) == 0x0040u16,
        bit(7) == 0x0080u16,
        bit(8) == 0x0100u16,
        bit(9) == 0x0200u16,
        bit(10) == 0x0400u16,
        bit(11) == 0x0800u16,
        bit(12) == 0x1000u16,
        bit(13) == 0x2000u16,
        bit(14) == 0x4000u16,
        bit(15) == 0x8000u16,
{
    assert((1u16 << (0int as u16)) == 0x0001u16) by (bit_vector);
    assert((1u16 << (1int as u16)) == 0x0002u16) by (bit_vector);
    assert((1u16 << (2int as u16)) == 0x0004u16) by (bit_vector);
    assert((1u16 << (3int as u16)) == 0x0008u16) by (bit_vector);
    assert((1u16 << (4int as u16)) == 0x0010u16) by (bit_vector);
    assert((1u16 << (5int as u16)) == 0x0020u16) by (bit_vector);
    assert((1u16 << (6int as u16)) == 0x0040u16) by (bit_vector);
    assert((1u16 << (7int as u16)) == 0x0080u16) by (bit_vector);
    assert((1u16 << (8int as u16)) == 0x0100u16) by (bit_vector);
    assert((1u16 << (9int as u16)) == 0x0200u16) by (bit_vector);
    assert((1u16 << (10int as u16)) == 0x0400u16) by (bit_vector);
    assert((1u16 << (11int as u16)) == 0x0800u16) by (bit_vector);
    assert((1u16 << (12int as u16)) == 0x1000u16) by (bit_vector);
    assert((1u16 << (13int as u16)) == 0x2000u16) by (bit_vector);
    assert((1u16 << (14int as u16)) == 0x4000u16) by (bit_vector);
    assert((1u16 << (15int as u16)) == 0x8000u16) by (bit_vector);
}

/// An access flag of a class, as it stands in a class file.
#[derive(Debug, PartialEq, Eq, Structural, Clone, Copy)]
pub enum ClassFlag {
    Public,
    Final,
    Super,
    Interface,
    Abstract,
    Synthetic,
    Annotation,
    Enum,
    Module,
}

pub type ClassFlags = Vec<ClassFlag>;

impl ClassFlag {
    /// The bit that stands for this flag.
    pub open spec fn spec_bits(self) -> u16 {
        match self {
            ClassFlag::Public => 0x0001,
            ClassFlag::Final => 0x0010,
            ClassFlag::Super => 0x0020,
            ClassFlag::Interface => 0x0200,
            ClassFlag::Abstract => 0x0400,
            ClassFlag::Synthetic => 0x1000,
            ClassFlag::Annotation => 0x2000,
            ClassFlag::Enum => 0x4000,
            ClassFlag::Module => 0x8000,
        }
    }

    /// The flag whose bit is exactly `bits`, if any.
    pub open spec fn spec_from_repr(bits: u16) -> Option<Self> {
        if bits == 0x0001 {
            Some(ClassFlag::Public)
        } else if bits == 0x0010 {
            Some(ClassFlag::Final)
        } else if bits == 0x0020 {
            Some(ClassFlag::Super)
        } else if bits == 0x0200 {
            Some(ClassFlag::Interface)
        } else if bits == 0x0400 {
            Some(ClassFlag::Abstract)
        } else if bits == 0x1000 {
            Some(ClassFlag::Synthetic)
        } else if bits == 0x2000 {
            Some(ClassFlag::Annotation)
        } else if bits == 0x4000 {
            Some(ClassFlag::Enum)
        } else if bits == 0x8000 {
            Some(ClassFlag::Module)
        } else {
            None
        }
    }

    /// The bit that stands for this flag.
    pub fn bits(&self) -> (r: u16)
        ensures
            r == self.spec_bits(),
    {
        match self {
            ClassFlag::Public => 0x0001,
            ClassFlag::Final => 0x0010,
            ClassFlag::Super => 0x0020,
            ClassFlag::Interface => 0x0200,
            ClassFlag::Abstract => 0x0400,
            ClassFlag::Synthetic => 0x1000,
            ClassFlag::Annotation => 0x2000,
            ClassFlag::Enum => 0x4000,
            ClassFlag::Module => 0x8000,
        }
    }

    /// The flag whose bit is exactly `bits`, if any.
    pub fn from_repr(bits: u16) -> (r: Option<Self>)
        ensures
            r == Self::spec_from_repr(bits),
    {
        if bits == 0x0001 {
            Some(ClassFlag::Public)
        } else if bits == 0x0010 {
            Some(ClassFlag::Final)
        } else if bits == 0x0020 {
            Some(ClassFlag::Super)
        } else if bits == 0x0200 {
            Some(ClassFlag::Interface)
        } else if bits == 0x0400 {
            Some(ClassFlag::Abstract)
        } else if bits == 0x1000 {
            Some(ClassFlag::Synthetic)
        } else if bits == 0x2000 {
            Some(ClassFlag::Annotation)
        } else if bits == 0x4000 {
            Some(ClassFlag::Enum)
        } else if bits == 0x8000 {
            Some(ClassFlag::Module)
        } else {
            None
        }
    }
}

/// The flags among the low `n` bits of `flags`, in ascending order of their bit.
pub open spec fn class_flags_below(flags: u16, n: int) -> Seq<ClassFlag>
    decreases n,
{
    if n <= 0 {
        Seq::empty()
    } else {
        let prev = class_flags_below(flags, n - 1);
        match ClassFlag::spec_from_repr(bit(n - 1)) {
            Some(f) => if flags & bit(n - 1) != 0 {
                prev.push(f)
            } else {
                prev
            },
            None => prev,
        }
    }
}

/// The class flags set in `flags`, in ascending order of their bit.
pub open spec fn spec_class_flags(flags: u16) -> Seq<ClassFlag> {
    class_flags_below(flags, 16)
}

proof fn lemma_class_from_repr(b: u16, f: ClassFlag)
    ensures
        ClassFlag::spec_from_repr(b) == Some(f) <==> b == f.spec_bits(),
{
}

proof fn lemma_class_flags_below_contains(flags: u16, n: int, f: ClassFlag)
    requires
        0 <= n,
    ensures
        class_flags_below(flags, n).contains(f) <==> exists|i: int|
            0 <= i < n && bit(i) == f.spec_bits() && #[trigger] (flags & bit(i)) != 0,
    decreases n,
{
    if n > 0 {
        lemma_class_flags_below_contains(flags, n - 1, f);
        lemma_class_from_repr(bit(n - 1), f);
        let prev = class_flags_below(flags, n - 1);
        if class_flags_below(flags, n).contains(f) {
            if !prev.contains(f) {
                let g = ClassFlag::spec_from_repr(bit(n - 1))->Some_0;
                assert(class_flags_below(flags, n) == prev.push(g));
                let j = choose|j: int| 0 <= j < prev.len() + 1 && prev.push(g)[j] == f;
                if j < prev.len() {
                    assert(prev.contains(f));
                }
                lemma_class_from_repr(bit(n - 1), g);
                assert(bit(n - 1) == f.spec_bits() && (flags & bit(n - 1)) != 0);
            }
        }
        if exists|i: int| 0 <= i < n && bit(i) == f.spec_bits() && #[trigger] (flags & bit(i)) != 0 {
            let i = choose|i: int| 0 <= i < n && bit(i) == f.spec_bits() && #[trigger] (flags & bit(i)) != 0;
            if i == n - 1 {
                assert(class_flags_below(flags, n) == prev.push(f));
                assert(prev.push(f)[prev.len() as int] == f);
            } else {
                assert(prev.contains(f));
                let s = class_flags_below(flags, n);
                let j = choose|j: int| 0 <= j < prev.len() && prev[j] == f;
                assert(s[j] == f);
            }
        }
    }
}

/// Every class flag is listed exactly when its bit is set.
pub proof fn lemma_class_flags_membership(flags: u16, f: ClassFlag)
    ensures
        spec_class_flags(flags).contains(f) <==> flags & f.spec_bits() != 0,
{
    lemma_bits();
    lemma_class_flags_below_contains(flags, 16, f);
    let i: int = match f {
        ClassFlag::Public => 0,
        ClassFlag::Final => 4,
        ClassFlag::Super => 5,
        ClassFlag::Interface => 9,
        ClassFlag::Abstract => 10,
        ClassFlag::Synthetic => 12,
        ClassFlag::Annotation => 13,
        ClassFlag::Enum => 14,
        ClassFlag::Module => 15,
    };
    assert(bit(i) == f.spec_bits());
    if flags & f.spec_bits() != 0 {
        assert((flags & bit(i)) != 0);
    }
    if exists|j: int| 0 <= j < 16 && bit(j) == f.spec_bits() && #[trigger] (flags & bit(j)) != 0 {
        let j = choose|j: int| 0 <= j < 16 && bit(j) == f.spec_bits() && #[trigger] (flags & bit(j)) != 0;
        assert(flags & f.spec_bits() != 0);
    }
}

/// The class flags set in `flags`, in ascending order of their bit. Bits that stand
/// for no flag are ignored.
pub fn parse_class_flags(flags: u16) -> (r: ClassFlags)
    ensures
        r@ == spec_class_flags(flags),
        forall|f: ClassFlag| r@.contains(f) <==> flags & f.spec_bits() != 0,
{
    let mut flags_parsed = Vec::new();
    let mut i: u16 = 0;
    while i < 16
        invariant
            i <= 16,
            flags_parsed@ == class_flags_below(flags, i as int),
        decreases 16 - i,
    {
        if let Some(flag) = ClassFlag::from_repr(1 << i) {
            if flags & (1 << i) != 0 {
                flags_parsed.push(flag)
            }
        }
        i = i + 1;
    }
    proof {
        assert forall|f: ClassFlag| flags_parsed@.contains(f) <==> flags & f.spec_bits() != 0 by {
            lemma_class_flags_membership(flags, f);
        }
    }
    flags_parsed
}

/// An access flag of a field, as it stands in a class file.
#[derive(Debug, PartialEq, Eq, Structural, Clone, Copy)]
pub enum FieldFlag {
    Public,
    Private,
    Protected,
    Static,
    Final,
    Volatile,
    Transient,
    Synthetic,
    Enum,
}

pub type FieldFlags = Vec<FieldFlag>;

impl FieldFlag {
    /// The bit that stands for this flag.
    pub open spec fn spec_bits(self) -> u16 {
        match self {
            FieldFlag::Public => 0x0001,
            FieldFlag::Private => 0x0002,
            FieldFlag::Protected => 0x0004,
            FieldFlag::Static => 0x0008,
            FieldFlag::Final => 0x0010,
            FieldFlag::Volatile => 0x0040,
            FieldFlag::Transient => 0x0080,
            FieldFlag::Synthetic => 0x1000,
            FieldFlag::Enum => 0x4000,
        }
    }

    /// The flag whose bit is exactly `bits`, if any.
    pub open spec fn spec_from_repr(bits: u16) -> Option<Self> {
        if bits == 0x0001 {
            Some(FieldFlag::Public)
        } else if bits == 0x0002 {
            Some(FieldFlag::Private)
        } else if bits == 0x0004 {
            Some(FieldFlag::Protected)
        } else if bits == 0x0008 {
            Some(FieldFlag::Static)
        } else if bits == 0x0010 {
            Some(FieldFlag::Final)
        } else if bits == 0x0040 {
            Some(FieldFlag::Volatile)
        } else if bits == 0x0080 {
            Some(FieldFlag::Transient)
        } else if bits == 0x1000 {
            Some(FieldFlag::Synthetic)
        } else if bits == 0x4000 {
            Some(FieldFlag::Enum)
        } else {
            None
        }
    }

    /// The bit that stands for this flag.
    pub fn bits(&self) -> (r: u16)
        ensures
            r == self.spec_bits(),
    {
        match self {
            FieldFlag::Public => 0x0001,
            FieldFlag::Private => 0x0002,
            FieldFlag::Protected => 0x0004,
            FieldFlag::Static => 0x0008,
            FieldFlag::Final => 0x0010,
            FieldFlag::Volatile => 0x0040,
            FieldFlag::Transient => 0x0080,
            FieldFlag::Synthetic => 0x1000,
            FieldFlag::Enum => 0x4000,
        }
    }

    /// The flag whose bit is exactly `bits`, if any.
    pub fn from_repr(bits: u16) -> (r: Option<Self>)
        ensures
            r == Self::spec_from_repr(bits),
    {
        if bits == 0x0001 {
            Some(FieldFlag::Public)
        } else if bits == 0x0002 {
            Some(FieldFlag::Private)
        } else if bits == 0x0004 {
            Some(FieldFlag::Protected)
        } else if bits == 0x0008 {
            Some(FieldFlag::Static)
        } else if bits == 0x0010 {
            Some(FieldFlag::Final)
        } else if bits == 0x0040 {
            Some(FieldFlag::Volatile)
        } else if bits == 0x0080 {
            Some(FieldFlag::Transient)
        } else if bits == 0x1000 {
            Some(FieldFlag::Synthetic)
        } else if bits == 0x4000 {
            Some(FieldFlag::Enum)
        } else {
            None
        }
    }
}

/// The flags among the low `n` bits of `flags`, in ascending order of their bit.
pub open spec fn field_flags_below(flags: u16, n: int) -> Seq<FieldFlag>
    decreases n,
{
    if n <= 0 {
        Seq::empty()
    } else {
        let prev = field_flags_below(flags, n - 1);
        match FieldFlag::spec_from_repr(bit(n - 1)) {
            Some(f) => if flags & bit(n - 1) != 0 {
                prev.push(f)
            } else {
                prev
            },
            None => prev,
        }
    }
}

/// The field flags set in `flags`, in ascending order of their bit.
pub open spec fn spec_field_flags(flags: u16) -> Seq<FieldFlag> {
    field_flags_below(flags, 16)
}

proof fn lemma_field_from_repr(b: u16, f: FieldFlag)
    ensures
        FieldFlag::spec_from_repr(b) == Some(f) <==> b == f.spec_bits(),
{
}

proof fn lemma_field_flags_below_contains(flags: u16, n: int, f: FieldFlag)
    requires
        0 <= n,
    ensures
        field_flags_below(flags, n).contains(f) <==> exists|i: int|
            0 <= i < n && bit(i) == f.spec_bits() && #[trigger] (flags & bit(i)) != 0,
    decreases n,
{
    if n > 0 {
        lemma_field_flags_below_contains(flags, n - 1, f);
        lemma_field_from_repr(bit(n - 1), f);
        let prev = field_flags_below(flags, n - 1);
        if field_flags_below(flags, n).contains(f) {
            if !prev.contains(f) {
                let g = FieldFlag::spec_from_repr(bit(n - 1))->Some_0;
                assert(field_flags_below(flags, n) == prev.push(g));
                let j = choose|j: int| 0 <= j < prev.len() + 1 && prev.push(g)[j] == f;
                if j < prev.len() {
                    assert(prev.contains(f));
                }
                lemma_field_from_repr(bit(n - 1), g);
                assert(bit(n - 1) == f.spec_bits() && (flags & bit(n - 1)) != 0);
            }
        }
        if exists|i: int| 0 <= i < n && bit(i) == f.spec_bits() && #[trigger] (flags & bit(i)) != 0 {
            let i = choose|i: int| 0 <= i < n && bit(i) == f.spec_bits() && #[trigger] (flags & bit(i)) != 0;
            if i == n - 1 {
                assert(field_flags_below(flags, n) == prev.push(f));
                assert(prev.push(f)[prev.len() as int] == f);
            } else {
                assert(prev.contains(f));
                let s = field_flags_below(flags, n);
                let j = choose|j: int| 0 <= j < prev.len() && prev[j] == f;
                assert(s[j] == f);
            }
        }
    }
}

/// Every field flag is listed exactly when its bit is set.
pub proof fn lemma_field_flags_membership(flags: u16, f: FieldFlag)
    ensures
        spec_field_flags(flags).contains(f) <==> flags & f.spec_bits() != 0,
{
    lemma_bits();
    lemma_field_flags_below_contains(flags, 16, f);
    let i: int = match f {
        FieldFlag::Public => 0,
        FieldFlag::Private => 1,
        FieldFlag::Protected => 2,
        FieldFlag::Static => 3,
        FieldFlag::Final => 4,
        FieldFlag::Volatile => 6,
        FieldFlag::Transient => 7,
        FieldFlag::Synthetic => 12,
        FieldFlag::Enum => 14,
    };
    assert(bit(i) == f.spec_bits());
    if flags & f.spec_bits() != 0 {
        assert((flags & bit(i)) != 0);
    }
    if exists|j: int| 0 <= j < 16 && bit(j) == f.spec_bits() && #[trigger] (flags & bit(j)) != 0 {
        let j = choose|j: int| 0 <= j < 16 && bit(j) == f.spec_bits() && #[trigger] (flags & bit(j)) != 0;
        assert(flags & f.spec_bits() != 0);
    }
}

/// The field flags set in `flags`, in ascending order of their bit. Bits that stand
/// for no flag are ignored.
pub fn parse_field_flags(flags: u16) -> (r: FieldFlags)
    ensures
        r@ == spec_field_flags(flags),
        forall|f: FieldFlag| r@.contains(f) <==> flags & f.spec_bits() != 0,
{
    let mut flags_parsed = Vec::new();
    let mut i: u16 = 0;
    while i < 16
        invariant
            i <= 16,
            flags_parsed@ == field_flags_below(flags, i as int),
        decreases 16 - i,
    {
        if let Some(flag) = FieldFlag::from_repr(1 << i) {
            if flags & (1 << i) != 0 {
                flags_parsed.push(flag)
            }
        }
        i = i + 1;
    }
    proof {
        assert forall|f: FieldFlag| flags_parsed@.contains(f) <==> flags & f.spec_bits() != 0 by {
            lemma_field_flags_membership(flags, f);
        }
    }
    flags_parsed
}

/// An access flag of a method, as it stands in a class file.
#[derive(Debug, PartialEq, Eq, Structural, Clone, Copy)]
pub enum MethodFlag {
    Public,
    Private,
    Protected,
    Static,
    Final,
    Synchronized,
    Bridge,
    VarArgs,
    Native,
    Abstract,
    Strict,
    Synthetic,
}

pub type MethodFlags = Vec<MethodFlag>;

impl MethodFlag {
    /// The bit that stands for this flag.
    pub open spec fn spec_bits(self) -> u16 {
        match self {
            MethodFlag::Public => 0x0001,
            MethodFlag::Private => 0x0002,
            MethodFlag::Protected => 0x0004,
            MethodFlag::Static => 0x0008,
            MethodFlag::Final => 0x0010,
            MethodFlag::Synchronized => 0x0020,
            MethodFlag::Bridge => 0x0040,
            MethodFlag::VarArgs => 0x0080,
            MethodFlag::Native => 0x0100,
            MethodFlag::Abstract => 0x0400,
            MethodFlag::Strict => 0x0800,
            MethodFlag::Synthetic => 0x1000,
        }
    }

    /// The flag whose bit is exactly `bits`, if any.
    pub open spec fn spec_from_repr(bits: u16) -> Option<Self> {
        if bits == 0x0001 {
            Some(MethodFlag::Public)
        } else if bits == 0x0002 {
            Some(MethodFlag::Private)
        } else if bits == 0x0004 {
            Some(MethodFlag::Protected)
        } else if bits == 0x0008 {
            Some(MethodFlag::Static)
        } else if bits == 0x0010 {
            Some(MethodFlag::Final)
        } else if bits == 0x0020 {
            Some(MethodFlag::Synchronized)
        } else if bits == 0x0040 {
            Some(MethodFlag::Bridge)
        } else if bits == 0x0080 {
            Some(MethodFlag::VarArgs)
        } else if bits == 0x0100 {
            Some(MethodFlag::Native)
        } else if bits == 0x0400 {
            Some(MethodFlag::Abstract)
        } else if bits == 0x0800 {
            Some(MethodFlag::Strict)
        } else if bits == 0x1000 {
            Some(MethodFlag::Synthetic)
        } else {
            None
        }
    }

    /// The bit that stands for this flag.
    pub fn bits(&self) -> (r: u16)
        ensures
            r == self.spec_bits(),
    {
        match self {
            MethodFlag::Public => 0x0001,
            MethodFlag::Private => 0x0002,
            MethodFlag::Protected => 0x0004,
            MethodFlag::Static => 0x0008,
            MethodFlag::Final => 0x0010,
            MethodFlag::Synchronized => 0x0020,
            MethodFlag::Bridge => 0x0040,
            MethodFlag::VarArgs => 0x0080,
            MethodFlag::Native => 0x0100,
            MethodFlag::Abstract => 0x0400,
            MethodFlag::Strict => 0x0800,
            MethodFlag::Synthetic => 0x1000,
        }
    }

    /// The flag whose bit is exactly `bits`, if any.
    pub fn from_repr(bits: u16) -> (r: Option<Self>)
        ensures
            r == Self::spec_from_repr(bits),
    {
        if bits == 0x0001 {
            Some(MethodFlag::Public)
        } else if bits == 0x0002 {
            Some(MethodFlag::Private)
        } else if bits == 0x0004 {
            Some(MethodFlag::Protected)
        } else if bits == 0x0008 {
            Some(MethodFlag::Static)
        } else if bits == 0x0010 {
            Some(MethodFlag::Final)
        } else if bits == 0x0020 {
            Some(MethodFlag::Synchronized)
        } else if bits == 0x0040 {
            Some(MethodFlag::Bridge)
        } else if bits == 0x0080 {
            Some(MethodFlag::VarArgs)
        } else if bits == 0x0100 {
            Some(MethodFlag::Native)
        } else if bits == 0x0400 {
            Some(MethodFlag::Abstract)
        } else if bits == 0x0800 {
            Some(MethodFlag::Strict)
        } else if bits == 0x1000 {
            Some(MethodFlag::Synthetic)
        } else {
            None
        }
    }
}

/// The flags among the low `n` bits of `flags`, in ascending order of their bit.
pub open spec fn method_flags_below(flags: u16, n: int) -> Seq<MethodFlag>
    decreases n,
{
    if n <= 0 {
        Seq::empty()
    } else {
        let prev = method_flags_below(flags, n - 1);
        match MethodFlag::spec_from_repr(bit(n - 1)) {
            Some(f) => if flags & bit(n - 1) != 0 {
                prev.push(f)
            } else {
                prev
            },
            None => prev,
        }
    }
}

/// The method flags set in `flags`, in ascending order of their bit.
pub open spec fn spec_method_flags(flags: u16) -> Seq<MethodFlag> {
    method_flags_below(flags, 16)
}

proof fn lemma_method_from_repr(b: u16, f: MethodFlag)
    ensures
        MethodFlag::spec_from_repr(b) == Some(f) <==> b == f.spec_bits(),
{
}

proof fn lemma_method_flags_below_contains(flags: u16, n: int, f: MethodFlag)
    requires
        0 <= n,
    ensures
        method_flags_below(flags, n).contains(f) <==> exists|i: int|
            0 <= i < n && bit(i) == f.spec_bits() && #[trigger] (flags & bit(i)) != 0,
    decreases n,
{
    if n > 0 {
        lemma_method_flags_below_contains(flags, n - 1, f);
        lemma_method_from_repr(bit(n - 1), f);
        let prev = method_flags_below(flags, n - 1);
        if method_flags_below(flags, n).contains(f) {
            if !prev.contains(f) {
                let g = MethodFlag::spec_from_repr(bit(n - 1))->Some_0;
                assert(method_flags_below(flags, n) == prev.push(g));
                let j = choose|j: int| 0 <= j < prev.len() + 1 && prev.push(g)[j] == f;
                if j < prev.len() {
                    assert(prev.contains(f));
                }
                lemma_method_from_repr(bit(n - 1), g);
                assert(bit(n - 1) == f.spec_bits() && (flags & bit(n - 1)) != 0);
            }
        }
        if exists|i: int| 0 <= i < n && bit(i) == f.spec_bits() && #[trigger] (flags & bit(i)) != 0 {
            let i = choose|i: int| 0 <= i < n && bit(i) == f.spec_bits() && #[trigger] (flags & bit(i)) != 0;
            if i == n - 1 {
                assert(method_flags_below(flags, n) == prev.push(f));
                assert(prev.push(f)[prev.len() as int] == f);
            } else {
                assert(prev.contains(f));
                let s = method_flags_below(flags, n);
                let j = choose|j: int| 0 <= j < prev.len() && prev[j] == f;
                assert(s[j] == f);
            }
        }
    }
}

/// Every method flag is listed exactly when its bit is set.
pub proof fn lemma_method_flags_membership(flags: u16, f: MethodFlag)
    ensures
        spec_method_flags(flags).contains(f) <==> flags & f.spec_bits() != 0,
{
    lemma_bits();
    lemma_method_flags_below_contains(flags, 16, f);
    let i: int = match f {
        MethodFlag::Public => 0,
        MethodFlag::Private => 1,
        MethodFlag::Protected => 2,
        MethodFlag::Static => 3,
        MethodFlag::Final => 4,
        MethodFlag::Synchronized => 5,
        MethodFlag::Bridge => 6,
        MethodFlag::VarArgs => 7,
        MethodFlag::Native => 8,
        MethodFlag::Abstract => 10,
        MethodFlag::Strict => 11,
        MethodFlag::Synthetic => 12,
    };
    assert(bit(i) == f.spec_bits());
    if flags & f.spec_bits() != 0 {
        assert((flags & bit(i)) != 0);
    }
    if exists|j: int| 0 <= j < 16 && bit(j) == f.spec_bits() && #[trigger] (flags & bit(j)) != 0 {
        let j = choose|j: int| 0 <= j < 16 && bit(j) == f.spec_bits() && #[trigger] (flags & bit(j)) != 0;
        assert(flags & f.spec_bits() != 0);
    }
}

/// The method flags set in `flags`, in ascending order of their bit. Bits that stand
/// for no flag are ignored.
pub fn parse_method_flags(flags: u16) -> (r: MethodFlags)
    ensures
        r@ == spec_method_flags(flags),
        forall|f: MethodFlag| r@.contains(f) <==> flags & f.spec_bits() != 0,
{
    let mut flags_parsed = Vec::new();
    let mut i: u16 = 0;
    while i < 16
        invariant
            i <= 16,
            flags_parsed@ == method_flags_below(flags, i as int),
        decreases 16 - i,
    {
        if let Some(flag) = MethodFlag::from_repr(1 << i) {
            if flags & (1 << i) != 0 {
                flags_parsed.push(flag)
            }
        }
        i = i + 1;
    }
    proof {
        assert forall|f: MethodFlag| flags_parsed@.contains(f) <==> flags & f.spec_bits() != 0 by {
            lemma_method_flags_membership(flags, f);
        }
    }
    flags_parsed
}

} // verus!
