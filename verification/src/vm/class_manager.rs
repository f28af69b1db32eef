use vstd::prelude::*;

use crate::field_info::{
    first_token, match_token, parse_field_type, spec_parse_field_type, spec_primitive_class,
    FieldTypeModel,
};
use crate::access_flags::ClassFlags;
use crate::attribute::{Code, ExceptionTable};
use crate::field_info::FieldInfo;
use crate::constants::ConstantPool;
use crate::method_info::{MethodDescriptor, MethodInfo};
use crate::vm::class::{ArrayInfo, Class, ClassId};
use crate::vm::VmError;

verus! {

/// The name of the class for values of the type `t` (see `FieldType::to_class_name`).
pub open spec fn class_name_of(t: FieldTypeModel) -> Seq<char> {
    match t {
        FieldTypeModel::Primitive(p) => spec_primitive_class(p),
        FieldTypeModel::Object(name) => name,
    }
}

/// For a class name that holds an array type (the first type found in it starts with
/// `[`): the class to load for its component type, the number of dimensions and the
/// component type.
pub open spec fn spec_array_class(name: Seq<char>) -> Option<(Seq<char>, int, FieldTypeModel)> {
    match first_token(name, 0, false) {
        Some(t) => match t.array {
            Some(brackets) => {
                let component = spec_parse_field_type(t.object, t.primitive, None);
                Some((class_name_of(component), brackets.len() as int, component))
            },
            None => None,
        },
        None => None,
    }
}

/// The class to load for `class_name`, and what makes it an array class if it is one:
/// an array class loads the class of its component type.
pub fn try_create_array_class(class_name: &str) -> (r: Result<(String, Option<ArrayInfo>), VmError>)
    ensures
        r matches Ok((name, info)) && match spec_array_class(class_name@) {
            Some((component_class, dims, component)) => info matches Some(i) && name@
                == component_class && i.spec_dims() == dims && i.spec_component_type()@ == component,
            None => info is None && name@ == class_name@,
        },
{
    let n = class_name.unicode_len();
    let mut i: usize = 0;
    while i < n
        invariant
            n == class_name@.len(),
            i <= n,
            first_token(class_name@, 0, false) == first_token(class_name@, i as int, false),
        decreases n - i,
    {
        match match_token(class_name, n, i, false) {
            Some(span) => {
                if span.letter == i {
                    return Ok((class_name.to_owned(), None));
                }
                let ghost t = first_token(class_name@, 0, false)->Some_0;
                proof {
                    crate::field_info::lemma_token_bounds(class_name@, i as int, false);
                    assert(t.array is Some);
                }
                let component_type = if span.kind == 0 {
                    let prim = class_name.substring_char(span.letter, span.letter + 1);
                    assert(prim@ =~= seq![class_name@[span.letter as int]]);
                    parse_field_type(None, Some(prim), None)
                } else {
                    let obj = class_name.substring_char(span.letter + 1, span.end - 1);
                    parse_field_type(Some(obj), None, None)
                };
                let new_class_name = component_type.to_class_name();
                let info = ArrayInfo::new(span.letter - i, component_type);
                return Ok((new_class_name, Some(info)));
            },
            None => {
                i = i + 1;
            },
        }
    }
    Ok((class_name.to_owned(), None))
}

/// True when `m` is a method of the internal class that invocations return through: named
/// `name` with the descriptor `descriptor`, without flags or attributes, one operand slot
/// and one local, and the single instruction `opcode`.
pub open spec fn is_returner_method(m: MethodInfo, name: Seq<char>, descriptor: Seq<char>, opcode: u8) -> bool {
    &&& m.flags@.len() == 0
    &&& m.name@ == name
    &&& m.descriptor.spec_raw() == descriptor
    &&& !m.deprecated
    &&& m.exceptions is None
    &&& m.attributes@.len() == 0
    &&& m.code matches Some(c) && c.max_stack == 1 && c.max_locals == 1 && c.code@ == seq![opcode]
        && c.attributes@.len() == 0 && c.line_number_table is None && c.exception_table.0@.len() == 0
}

/// A method of the internal class: one instruction on one operand slot and one local.
fn returner_method(name: &str, descriptor: &str, opcode: u8) -> (r: MethodInfo)
    ensures
        is_returner_method(r, name@, descriptor@, opcode),
{
    let mut instructions: Vec<u8> = Vec::new();
    instructions.push(opcode);
    assert(instructions@ =~= seq![opcode]);
    let code = Code {
        max_stack: 1,
        max_locals: 1,
        code: instructions,
        attributes: Vec::new(),
        line_number_table: None,
        exception_table: ExceptionTable(Vec::new()),
    };
    MethodInfo {
        flags: Vec::new(),
        name: name.to_owned(),
        descriptor: MethodDescriptor::new(descriptor.to_owned()),
        deprecated: false,
        code: Some(code),
        exceptions: None,
        attributes: Vec::new(),
    }
}

/// The internal class `internal/Returner`, with the id 0, that the machine keeps below
/// the invocations it starts: its method `dummyReturn` hands the value on its operand
/// stack back (`ARETURN`), its method `dummyThrow` throws it (`ATHROW`).
pub fn returner_class() -> (r: Class<'static>)
    ensures
        r.id == ClassId(0),
        r.name@ == "internal/Returner"@,
        r.source_file is None,
        r.constants.0@.len() == 0,
        r.flags@.len() == 0,
        r.superclass is None,
        r.interfaces@.len() == 0,
        r.fields@.len() == 0,
        r.methods@.len() == 2,
        is_returner_method(r.methods@[0], "dummyReturn"@, "()Ljava/lang/Object;"@, 0xb0),
        is_returner_method(r.methods@[1], "dummyThrow"@, "()V"@, 0xbf),
        r.transitive_field_count == 0,
        r.first_field_index == 0,
        r.array_info is None,
{
    Class {
        id: ClassId(0),
        name: "internal/Returner".to_owned(),
        source_file: None,
        constants: ConstantPool(Vec::new()),
        flags: Vec::new(),
        superclass: None,
        interfaces: Vec::new(),
        fields: Vec::new(),
        methods: vec![
            returner_method("dummyReturn", "()Ljava/lang/Object;", 0xb0),
            returner_method("dummyThrow", "()V", 0xbf),
        ],
        transitive_field_count: 0,
        first_field_index: 0,
        array_info: None,
    }
}

/// What a parsed class file contributes to a class: its source file, constant pool,
/// access flags, declared fields and methods.
pub struct ClassPieces {
    pub source_file: Option<String>,
    pub constant_pool: ConstantPool,
    pub access_flags: ClassFlags,
    pub fields: Vec<FieldInfo>,
    pub methods: Vec<MethodInfo>,
}

/// The number of fields that objects of the superclass `superclass` hold: its
/// transitive field count, or 0 without a superclass.
pub open spec fn inherited_field_count<'a>(superclass: Option<&'a Class<'a>>) -> int {
    match superclass {
        Some(s) => s.transitive_field_count as int,
        None => 0,
    }
}

/// Links the class `name` with the id `id` from its parsed `pieces` and its already
/// resolved superclass and interfaces. Its own fields are numbered after the fields it
/// inherits: they start at the superclass's transitive field count (0 without one), and
/// the class's transitive field count adds its own fields to that.
pub fn link_class<'a>(
    id: ClassId,
    name: String,
    pieces: ClassPieces,
    superclass: Option<&'a Class<'a>>,
    interfaces: Vec<&'a Class<'a>>,
    array_info: Option<ArrayInfo>,
) -> (c: Class<'a>)
    requires
        inherited_field_count(superclass) + pieces.fields@.len() <= usize::MAX,
    ensures
        c.id == id,
        c.name == name,
        c.source_file == pieces.source_file,
        c.constants == pieces.constant_pool,
        c.flags == pieces.access_flags,
        c.superclass == superclass,
        c.interfaces == interfaces,
        c.fields == pieces.fields,
        c.methods == pieces.methods,
        c.first_field_index == inherited_field_count(superclass),
        c.transitive_field_count == c.first_field_index + pieces.fields@.len(),
        c.array_info == array_info,
{
    let superclass_field_count = match superclass {
        Some(class) => class.transitive_field_count,
        None => 0,
    };
    let fields_count = pieces.fields.len();
    Class {
        id,
        name,
        source_file: pieces.source_file,
        constants: pieces.constant_pool,
        flags: pieces.access_flags,
        superclass,
        interfaces,
        fields: pieces.fields,
        methods: pieces.methods,
        transitive_field_count: superclass_field_count + fields_count,
        first_field_index: superclass_field_count,
        array_info,
    }
}

} // verus!
