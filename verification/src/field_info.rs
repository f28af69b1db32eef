use vstd::prelude::*;

use crate::access_flags::FieldFlags;
use crate::attribute::{Attribute, ConstantValue};

verus! {

/// A field as declared in a class file.
#[derive(Debug)]
pub struct FieldInfo {
    pub flags: FieldFlags,
    pub name: String,
    pub field_type: FieldType,
    pub deprecated: bool,
    pub constant_value: Option<ConstantValue>,
    pub attributes: Vec<Attribute>,
}

/// The primitive types of the JVM.
#[derive(Debug, PartialEq, Eq, Structural, Clone, Copy)]
pub enum PrimitiveType {
    Boolean,
    Byte,
    Short,
    Integer,
    Long,
    Float,
    Double,
    Char,
}

/// The type of a field, a method argument or a return value. Array types are kept as
/// object types whose name is the array descriptor.
#[derive(Debug, PartialEq, Clone)]
pub enum FieldType {
    Primitive(PrimitiveType),
    Object(String),
}

/// The mathematical content of a [`FieldType`].
pub enum FieldTypeModel {
    Primitive(PrimitiveType),
    Object(Seq<char>),
}

impl View for FieldType {
    type V = FieldTypeModel;

    open spec fn view(&self) -> FieldTypeModel {
        match self {
            FieldType::Primitive(p) => FieldTypeModel::Primitive(*p),
            FieldType::Object(name) => FieldTypeModel::Object(name@),
        }
    }
}

/// The descriptor letters of the primitive types.
pub open spec fn is_primitive_char(c: char) -> bool {
    c == 'Z' || c == 'B' || c == 'S' || c == 'I' || c == 'J' || c == 'F' || c == 'D' || c == 'C'
}

/// The primitive type a descriptor letter stands for.
pub open spec fn spec_primitive_of(c: char) -> PrimitiveType {
    if c == 'Z' {
        PrimitiveType::Boolean
    } else if c == 'B' {
        PrimitiveType::Byte
    } else if c == 'S' {
        PrimitiveType::Short
    } else if c == 'I' {
        PrimitiveType::Integer
    } else if c == 'J' {
        PrimitiveType::Long
    } else if c == 'F' {
        PrimitiveType::Float
    } else if c == 'D' {
        PrimitiveType::Double
    } else {
        PrimitiveType::Char
    }
}

/// The letter by which a descriptor names each primitive type: `Z` boolean, `B` byte, `S`
/// short, `I` int, `J` long, `F` float, `D` double, `C` char.
pub open spec fn descriptor_letter(p: PrimitiveType) -> char {
    match p {
        PrimitiveType::Boolean => 'Z',
        PrimitiveType::Byte => 'B',
        PrimitiveType::Short => 'S',
        PrimitiveType::Integer => 'I',
        PrimitiveType::Long => 'J',
        PrimitiveType::Float => 'F',
        PrimitiveType::Double => 'D',
        PrimitiveType::Char => 'C',
    }
}

/// Reading a descriptor letter and writing the type back give the letter again, and
/// every primitive type has its own letter: distinct letters name distinct types.
pub proof fn law_descriptor_letters(c: char, d: char, p: PrimitiveType)
    ensures
        is_primitive_char(c) ==> descriptor_letter(spec_primitive_of(c)) == c,
        spec_primitive_of(descriptor_letter(p)) == p,
        is_primitive_char(descriptor_letter(p)),
        is_primitive_char(c) && is_primitive_char(d) && c != d ==> spec_primitive_of(c) != spec_primitive_of(d),
{
}

impl PrimitiveType {
    /// The primitive type named by a one-letter descriptor. Any other text panics, so it is
    /// left out by the precondition.
    pub fn from_str(s: &str) -> (r: Result<PrimitiveType, ()>)
        requires
            s@.len() == 1,
            is_primitive_char(s@[0]),
        ensures
            r == Ok::<PrimitiveType, ()>(spec_primitive_of(s@[0])),
    {
        let c = s.get_char(0);
        if c == 'Z' {
            Ok(PrimitiveType::Boolean)
        } else if c == 'B' {
            Ok(PrimitiveType::Byte)
        } else if c == 'S' {
            Ok(PrimitiveType::Short)
        } else if c == 'I' {
            Ok(PrimitiveType::Integer)
        } else if c == 'J' {
            Ok(PrimitiveType::Long)
        } else if c == 'F' {
            Ok(PrimitiveType::Float)
        } else if c == 'D' {
            Ok(PrimitiveType::Double)
        } else {
            Ok(PrimitiveType::Char)
        }
    }
}

/// The text of an optional string slice.
pub open spec fn opt_chars(o: Option<&str>) -> Option<Seq<char>> {
    match o {
        Some(s) => Some(s@),
        None => None,
    }
}

/// The field type built from the parts of a descriptor: a primitive letter or an object
/// name, optionally preceded by array brackets. With brackets, the result is an object type
/// named by the brackets, then the object name followed by `;` (without the leading `L`),
/// then the primitive letter.
pub open spec fn spec_parse_field_type(
    object: Option<Seq<char>>,
    primitive: Option<Seq<char>>,
    array: Option<Seq<char>>,
) -> FieldTypeModel {
    match array {
        Some(dims) => FieldTypeModel::Object(
            dims + (match object {
                Some(o) => o + seq![';'],
                None => Seq::empty(),
            }) + (match primitive {
                Some(p) => p,
                None => Seq::empty(),
            }),
        ),
        None => match primitive {
            Some(p) => FieldTypeModel::Primitive(spec_primitive_of(p[0])),
            None => FieldTypeModel::Object(object->Some_0),
        },
    }
}

/// Builds a field type from the parts of a descriptor (see [`spec_parse_field_type`]).
/// Neither part present panics, as does a primitive part that is not a primitive letter; both
/// are left out by the precondition.
pub fn parse_field_type(object: Option<&str>, primitive: Option<&str>, array: Option<&str>) -> (r: FieldType)
    requires
        object is Some || primitive is Some,
        primitive matches Some(p) ==> p@.len() == 1 && is_primitive_char(p@[0]),
    ensures
        r@ == spec_parse_field_type(opt_chars(object), opt_chars(primitive), opt_chars(array)),
{
    let field_type = if let Some(prim) = primitive {
        FieldType::Primitive(PrimitiveType::from_str(prim).unwrap())
    } else if let Some(obj) = object {
        FieldType::Object(obj.to_owned())
    } else {
        proof {
            assert(false);
        }
        FieldType::Object(String::new())
    };
    if let Some(dims) = array {
        let mut name = String::new();
        name.append(dims);
        let ghost obj_part: Seq<char> = match object {
            Some(o) => o@ + seq![';'],
            None => Seq::empty(),
        };
        let ghost prim_part: Seq<char> = match primitive {
            Some(p) => p@,
            None => Seq::empty(),
        };
        assert(name@ =~= dims@);
        if let Some(obj) = object {
            name.append(obj);
            name.append(";");
            proof {
                reveal_strlit(";");
                assert(name@ =~= dims@ + obj_part);
            }
        } else {
            assert(name@ =~= dims@ + obj_part);
        }
        if let Some(prim) = primitive {
            name.append(prim);
            assert(name@ =~= dims@ + obj_part + prim_part);
        } else {
            assert(name@ =~= dims@ + obj_part + prim_part);
        }
        FieldType::Object(name)
    } else {
        field_type
    }
}

/// The class name standing for a primitive type.
pub open spec fn spec_primitive_class(p: PrimitiveType) -> Seq<char> {
    match p {
        PrimitiveType::Integer => "java/lang/Integer"@,
        PrimitiveType::Long => "java/lang/Long"@,
        PrimitiveType::Short => "java/lang/Short"@,
        PrimitiveType::Char => "java/lang/Character"@,
        PrimitiveType::Byte => "java/lang/Byte"@,
        PrimitiveType::Float => "java/lang/Float"@,
        PrimitiveType::Double => "java/lang/Double"@,
        PrimitiveType::Boolean => "java/lang/Boolean"@,
    }
}

impl FieldType {
    /// The name of the class for values of this type: the wrapper class of a primitive
    /// type, or the object type's own name.
    pub fn to_class_name(&self) -> (r: String)
        ensures
            r@ == match self@ {
                FieldTypeModel::Primitive(p) => spec_primitive_class(p),
                FieldTypeModel::Object(name) => name,
            },
    {
        match self {
            FieldType::Primitive(_) => self.get_primitive_class(),
            FieldType::Object(name) => name.clone(),
        }
    }

    /// The wrapper class of a primitive type. Calling it on an object type panics, so that
    /// is left out by the precondition.
    pub fn get_primitive_class(&self) -> (r: String)
        requires
            self is Primitive,
        ensures
            r@ == spec_primitive_class(self->Primitive_0),
    {
        if let FieldType::Primitive(p_type) = self {
            match p_type {
                PrimitiveType::Integer => "java/lang/Integer".to_owned(),
                PrimitiveType::Long => "java/lang/Long".to_owned(),
                PrimitiveType::Short => "java/lang/Short".to_owned(),
                PrimitiveType::Char => "java/lang/Character".to_owned(),
                PrimitiveType::Byte => "java/lang/Byte".to_owned(),
                PrimitiveType::Float => "java/lang/Float".to_owned(),
                PrimitiveType::Double => "java/lang/Double".to_owned(),
                PrimitiveType::Boolean => "java/lang/Boolean".to_owned(),
            }
        } else {
            proof {
                assert(false);
            }
            String::new()
        }
    }
}

// ---------------------------------------------------------------------------
// The descriptor grammar
// ---------------------------------------------------------------------------

/// The characters allowed in a class name inside a descriptor.
pub open spec fn is_name_char(c: char) -> bool {
    ('a' <= c && c <= 'z') || ('A' <= c && c <= 'Z') || ('0' <= c && c <= '9') || c == '/' || c
        == '$'
}

/// The number of `[` in a row starting at `i`.
pub open spec fn bracket_run(s: Seq<char>, i: int) -> int
    decreases s.len() - i,
{
    if 0 <= i < s.len() && s[i] == '[' {
        1 + bracket_run(s, i + 1)
    } else {
        0
    }
}

/// The number of class-name characters in a row starting at `i`.
pub open spec fn name_run(s: Seq<char>, i: int) -> int
    decreases s.len() - i,
{
    if 0 <= i < s.len() && is_name_char(s[i]) {
        1 + name_run(s, i + 1)
    } else {
        0
    }
}

/// One field type (or `V`) matched in a descriptor: the parts of the match, and the
/// position just after it.
pub struct DescriptorToken {
    pub array: Option<Seq<char>>,
    pub primitive: Option<Seq<char>>,
    pub object: Option<Seq<char>>,
    pub void: bool,
    pub end: int,
}

/// The type matched at position `i`, if one starts there: optional `[`s, then a primitive
/// letter, or `L` followed by a class name and `;`, or (when `allow_void`) `V`.
pub open spec fn token_at(s: Seq<char>, i: int, allow_void: bool) -> Option<DescriptorToken> {
    let k = bracket_run(s, i);
    let j = i + k;
    let array = if k > 0 {
        Some(s.subrange(i, j))
    } else {
        None
    };
    let r = name_run(s, j + 1);
    if j >= s.len() {
        None
    } else if is_primitive_char(s[j]) {
        Some(
            DescriptorToken {
                array,
                primitive: Some(seq![s[j]]),
                object: None,
                void: false,
                end: j + 1,
            },
        )
    } else if s[j] == 'L' && r > 0 && j + 1 + r < s.len() && s[j + 1 + r] == ';' {
        Some(
            DescriptorToken {
                array,
                primitive: None,
                object: Some(s.subrange(j + 1, j + 1 + r)),
                void: false,
                end: j + 2 + r,
            },
        )
    } else if allow_void && s[j] == 'V' {
        Some(DescriptorToken { array, primitive: None, object: None, void: true, end: j + 1 })
    } else {
        None
    }
}

/// The types matched one after another from position `i`, skipping characters at which no
/// type starts.
pub open spec fn scan_tokens(s: Seq<char>, i: int, allow_void: bool) -> Seq<DescriptorToken>
    decreases s.len() - i,
{
    if i < 0 || i >= s.len() {
        Seq::empty()
    } else {
        match token_at(s, i, allow_void) {
            Some(t) => if i < t.end <= s.len() {
                seq![t] + scan_tokens(s, t.end, allow_void)
            } else {
                Seq::empty()
            },
            None => scan_tokens(s, i + 1, allow_void),
        }
    }
}

/// The first type matched at or after position `i`.
pub open spec fn first_token(s: Seq<char>, i: int, allow_void: bool) -> Option<DescriptorToken>
    decreases s.len() - i,
{
    if i < 0 || i >= s.len() {
        None
    } else {
        match token_at(s, i, allow_void) {
            Some(t) => Some(t),
            None => first_token(s, i + 1, allow_void),
        }
    }
}

/// The field type a matched (non-`V`) type stands for.
pub open spec fn token_field_type(t: DescriptorToken) -> FieldTypeModel {
    spec_parse_field_type(t.object, t.primitive, t.array)
}

proof fn lemma_bracket_run_bounds(s: Seq<char>, i: int)
    requires
        0 <= i,
    ensures
        0 <= bracket_run(s, i),
        i < s.len() ==> i + bracket_run(s, i) <= s.len(),
        forall|j: int| i <= j < i + bracket_run(s, i) ==> s[j] == '[',
        i + bracket_run(s, i) < s.len() ==> s[i + bracket_run(s, i)] != '[',
    decreases s.len() - i,
{
    if 0 <= i < s.len() && s[i] == '[' {
        lemma_bracket_run_bounds(s, i + 1);
    }
}

proof fn lemma_name_run_bounds(s: Seq<char>, i: int)
    requires
        0 <= i,
    ensures
        0 <= name_run(s, i),
        i <= s.len() ==> i + name_run(s, i) <= s.len(),
        forall|j: int| i <= j < i + name_run(s, i) ==> is_name_char(s[j]),
        i + name_run(s, i) < s.len() ==> !is_name_char(s[i + name_run(s, i)]),
    decreases s.len() - i,
{
    if 0 <= i < s.len() && is_name_char(s[i]) {
        lemma_name_run_bounds(s, i + 1);
    }
}

/// A matched type lies within the text, after its start.
pub proof fn lemma_token_bounds(s: Seq<char>, i: int, allow_void: bool)
    requires
        0 <= i < s.len(),
    ensures
        token_at(s, i, allow_void) matches Some(t) ==> i < t.end <= s.len() && !(t.void && (
        t.primitive is Some || t.object is Some)),
{
    lemma_bracket_run_bounds(s, i);
    lemma_name_run_bounds(s, i + bracket_run(s, i) + 1);
}

/// Where the type matched at `i` stands, for the executable matcher: the position of the
/// letter after the brackets, which kind of type it is (0 primitive, 1 object, 2 `V`), and
/// the position after it.
pub struct TokenSpan {
    pub letter: usize,
    pub kind: u8,
    pub end: usize,
}

/// Counts the `[` in a row starting at `i`.
fn count_brackets(s: &str, n: usize, i: usize) -> (r: usize)
    requires
        n == s@.len(),
        i <= n,
    ensures
        r as int == bracket_run(s@, i as int),
        i + r <= n,
{
    let mut j = i;
    proof {
        lemma_bracket_run_bounds(s@, i as int);
    }
    while j < n && s.get_char(j) == '['
        invariant
            n == s@.len(),
            i <= j <= n,
            bracket_run(s@, i as int) == (j - i) + bracket_run(s@, j as int),
        decreases n - j,
    {
        j = j + 1;
    }
    j - i
}

/// Whether `c` may stand in a class name inside a descriptor.
fn is_name_char_exec(c: char) -> (r: bool)
    ensures
        r == is_name_char(c),
{
    ('a' <= c && c <= 'z') || ('A' <= c && c <= 'Z') || ('0' <= c && c <= '9') || c == '/' || c
        == '$'
}

/// Counts the class-name characters in a row starting at `i`.
fn count_name_chars(s: &str, n: usize, i: usize) -> (r: usize)
    requires
        n == s@.len(),
        i <= n,
    ensures
        r as int == name_run(s@, i as int),
        i + r <= n,
{
    let mut j = i;
    while j < n && is_name_char_exec(s.get_char(j))
        invariant
            n == s@.len(),
            i <= j <= n,
            name_run(s@, i as int) == (j - i) + name_run(s@, j as int),
        decreases n - j,
    {
        j = j + 1;
    }
    j - i
}

/// Matches a type at position `i` (see [`token_at`]).
pub fn match_token(s: &str, n: usize, i: usize, allow_void: bool) -> (r: Option<TokenSpan>)
    requires
        n == s@.len(),
        i < n,
    ensures
        match token_at(s@, i as int, allow_void) {
            Some(t) => r matches Some(span) && span.end == t.end && i <= span.letter < span.end
                && span.letter == i + bracket_run(s@, i as int) && (span.kind == 0 <==> t.primitive
                is Some) && (span.kind == 1 <==> t.object is Some) && (span.kind == 2 <==> t.void)
                && (span.kind == 1 ==> span.letter + 2 <= span.end) && span.kind <= 2,
            None => r is None,
        },
{
    proof {
        lemma_bracket_run_bounds(s@, i as int);
    }
    let k = count_brackets(s, n, i);
    let j = i + k;
    if j >= n {
        return None;
    }
    let c = s.get_char(j);
    if c == 'Z' || c == 'B' || c == 'S' || c == 'I' || c == 'J' || c == 'F' || c == 'D' || c
        == 'C' {
        return Some(TokenSpan { letter: j, kind: 0, end: j + 1 });
    }
    if c == 'L' {
        let r = count_name_chars(s, n, j + 1);
        if r > 0 && j + 1 + r < n && s.get_char(j + 1 + r) == ';' {
            return Some(TokenSpan { letter: j, kind: 1, end: j + 2 + r });
        }
    }
    if allow_void && c == 'V' {
        return Some(TokenSpan { letter: j, kind: 2, end: j + 1 });
    }
    None
}

/// Builds the field type of a matched, non-`V` type.
pub fn token_type(s: &str, n: usize, i: usize, span: &TokenSpan, allow_void: bool) -> (r: FieldType)
    requires
        n == s@.len(),
        i < n,
        token_at(s@, i as int, allow_void) is Some,
        span.end == token_at(s@, i as int, allow_void)->Some_0.end,
        i <= span.letter < span.end,
        span.letter == i + bracket_run(s@, i as int),
        span.kind == 0 <==> token_at(s@, i as int, allow_void)->Some_0.primitive is Some,
        span.kind == 1 <==> token_at(s@, i as int, allow_void)->Some_0.object is Some,
        span.kind == 1 ==> span.letter + 2 <= span.end,
        span.kind == 0 || span.kind == 1,
    ensures
        r@ == token_field_type(token_at(s@, i as int, allow_void)->Some_0),
{
    let ghost t = token_at(s@, i as int, allow_void)->Some_0;
    proof {
        lemma_bracket_run_bounds(s@, i as int);
        lemma_token_bounds(s@, i as int, allow_void);
    }
    let array = if span.letter > i {
        Some(s.substring_char(i, span.letter))
    } else {
        None
    };
    assert(opt_chars(array) == t.array);
    if span.kind == 0 {
        let prim = s.substring_char(span.letter, span.letter + 1);
        assert(prim@ =~= seq![s@[span.letter as int]]);
        parse_field_type(None, Some(prim), array)
    } else {
        let obj = s.substring_char(span.letter + 1, span.end - 1);
        assert(opt_chars(Some(obj)) == t.object);
        parse_field_type(Some(obj), None, array)
    }
}

/// The field type of the first type found in `string` (see [`first_token`]). Text in which
/// no type is found panics, so it is left out by the precondition.
pub fn field_type_from_str(string: &str) -> (r: FieldType)
    requires
        first_token(string@, 0, false) is Some,
    ensures
        r@ == token_field_type(first_token(string@, 0, false)->Some_0),
{
    let n = string.unicode_len();
    let mut i: usize = 0;
    while i < n
        invariant
            n == string@.len(),
            i <= n,
            first_token(string@, 0, false) == first_token(string@, i as int, false),
        decreases n - i,
    {
        match match_token(string, n, i, false) {
            Some(span) => {
                return token_type(string, n, i, &span, false);
            },
            None => {
                i = i + 1;
            },
        }
    }
    proof {
        assert(first_token(string@, i as int, false) is None);
    }
    FieldType::Object(String::new())
}

/// A descriptor that is one type alone is read as that type, taking the whole text: a
/// primitive letter as the primitive type it names, and `L`, a class name and `;` as the
/// object type of that name.
pub proof fn law_single_type_descriptors(c: char, name: Seq<char>)
    ensures
        is_primitive_char(c) ==> (first_token(seq![c], 0, false) matches Some(t) && t.end == 1 && token_field_type(t)
            == FieldTypeModel::Primitive(spec_primitive_of(c))),
        name.len() > 0 && (forall|j: int| 0 <= j < name.len() ==> is_name_char(#[trigger] name[j])) ==> (first_token(
            seq!['L'] + name + seq![';'],
            0,
            false,
        ) matches Some(t) && t.end == name.len() + 2 && token_field_type(t) == FieldTypeModel::Object(name)),
{
    let p = seq![c];
    assert(bracket_run(p, 0) == 0 || p[0] == '[');
    if is_primitive_char(c) {
        assert(bracket_run(p, 0) == 0);
        assert(seq![p[0]] =~= p);
    }
    if name.len() > 0 && (forall|j: int| 0 <= j < name.len() ==> is_name_char(#[trigger] name[j])) {
        let s = seq!['L'] + name + seq![';'];
        assert(s[0] == 'L');
        assert(bracket_run(s, 0) == 0);
        assert(forall|j: int| 1 <= j <= name.len() ==> #[trigger] s[j] == name[j - 1]);
        assert(s[name.len() as int + 1] == ';');
        lemma_name_run_bounds(s, 1);
        let r = name_run(s, 1);
        if r < name.len() {
            assert(is_name_char(s[1 + r]));
        }
        assert(r == name.len());
        assert(s.subrange(1, 1 + r) =~= name);
        assert(!is_primitive_char(s[0]));
    }
}

} // verus!
