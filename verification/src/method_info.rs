use vstd::prelude::*;

use crate::access_flags::{MethodFlag, MethodFlags};
use crate::attribute::{Attribute, Code, ExceptionTable, Exceptions};
use crate::field_info::{
    match_token, token_type, DescriptorToken, FieldType, FieldTypeModel,
};

verus! {

/// A method as declared in a class file.
#[derive(Debug)]
pub struct MethodInfo {
    pub flags: MethodFlags,
    pub name: String,
    pub descriptor: MethodDescriptor,
    pub deprecated: bool,
    pub code: Option<Code>,
    pub exceptions: Option<Exceptions>,
    pub attributes: Vec<Attribute>,
}

/// Whether `flag` is among `flags`.
fn has_flag(flags: &Vec<MethodFlag>, flag: MethodFlag) -> (r: bool)
    ensures
        r == flags@.contains(flag),
{
    let mut i: usize = 0;
    while i < flags.len()
        invariant
            i <= flags@.len(),
            forall|j: int| 0 <= j < i ==> flags@[j] != flag,
        decreases flags@.len() - i,
    {
        if flags[i] == flag {
            return true;
        }
        i = i + 1;
    }
    false
}

impl MethodInfo {
    /// The number of arguments the descriptor declares.
    pub fn get_args_count(&self) -> (r: usize)
        ensures
            r == self.descriptor.args_model().len(),
    {
        self.descriptor.args.len()
    }

    pub fn is_native(&self) -> (r: bool)
        ensures
            r == self.flags@.contains(MethodFlag::Native),
    {
        has_flag(&self.flags, MethodFlag::Native)
    }

    pub fn is_static(&self) -> (r: bool)
        ensures
            r == self.flags@.contains(MethodFlag::Static),
    {
        has_flag(&self.flags, MethodFlag::Static)
    }

    pub fn is_abstract(&self) -> (r: bool)
        ensures
            r == self.flags@.contains(MethodFlag::Abstract),
    {
        has_flag(&self.flags, MethodFlag::Abstract)
    }

    /// True when the method has code with at least one exception handler.
    pub fn has_exception_handler(&self) -> (r: bool)
        ensures
            r == (self.code matches Some(code) && code.exception_table.0@.len() > 0),
    {
        if let Some(code) = &self.code {
            code.exception_table.0.len() > 0
        } else {
            false
        }
    }

    /// A copy of the method's exception handlers. A method without code panics, so that is
    /// left out by the precondition.
    pub fn get_exception_handlers(&self) -> (r: ExceptionTable)
        requires
            self.code is Some,
        ensures
            r.0@ == self.code->Some_0.exception_table.0@,
    {
        if let Some(code) = &self.code {
            code.exception_table.duplicate()
        } else {
            proof {
                assert(false);
            }
            ExceptionTable(Vec::new())
        }
    }
}

/// The field types of the matched types, in order, leaving out each `V`.
pub open spec fn descriptor_fields(toks: Seq<DescriptorToken>) -> Seq<FieldTypeModel>
    decreases toks.len(),
{
    if toks.len() == 0 {
        Seq::empty()
    } else {
        let prev = descriptor_fields(toks.drop_last());
        if toks.last().void {
            prev
        } else {
            prev.push(crate::field_info::token_field_type(toks.last()))
        }
    }
}

/// Whether any matched type is `V`.
pub open spec fn has_void(toks: Seq<DescriptorToken>) -> bool {
    exists|i: int| 0 <= i < toks.len() && #[trigger] toks[i].void
}

/// The types found in a method descriptor, `V` included.
pub open spec fn descriptor_tokens(raw: Seq<char>) -> Seq<DescriptorToken> {
    crate::field_info::scan_tokens(raw, 0, true)
}

/// The argument types of a method descriptor: every type found in it, except the last when
/// no `V` is found (that one is the return type).
pub open spec fn descriptor_args(raw: Seq<char>) -> Seq<FieldTypeModel> {
    let toks = descriptor_tokens(raw);
    let fields = descriptor_fields(toks);
    if !has_void(toks) && fields.len() > 0 {
        fields.drop_last()
    } else {
        fields
    }
}

/// The return type of a method descriptor: none when a `V` is found, otherwise the last type
/// found.
pub open spec fn descriptor_return_type(raw: Seq<char>) -> Option<FieldTypeModel> {
    let toks = descriptor_tokens(raw);
    let fields = descriptor_fields(toks);
    if !has_void(toks) && fields.len() > 0 {
        Some(fields.last())
    } else {
        None
    }
}

/// A method descriptor, kept as written, with its argument and return types.
#[derive(Debug)]
pub struct MethodDescriptor {
    raw: String,
    pub args: Vec<FieldType>,
    pub return_type: Option<FieldType>,
}

impl MethodDescriptor {
    /// The descriptor as written.
    pub closed spec fn spec_raw(&self) -> Seq<char> {
        self.raw@
    }

    /// The argument types.
    pub closed spec fn args_model(&self) -> Seq<FieldTypeModel> {
        self.args@.map_values(|t: FieldType| t@)
    }

    /// The return type; none for `void`.
    pub closed spec fn return_type_model(&self) -> Option<FieldTypeModel> {
        match self.return_type {
            Some(t) => Some(t@),
            None => None,
        }
    }

    /// Reads the argument and return types out of a descriptor. Every field type found in
    /// the text counts, wherever it stands; `V` anywhere makes the return type void.
    /// (See [`descriptor_args`] and [`descriptor_return_type`].)
    pub fn new(raw_string: String) -> (r: Self)
        ensures
            r.spec_raw() == raw_string@,
            r.args_model() == descriptor_args(raw_string@),
            r.return_type_model() == descriptor_return_type(raw_string@),
    {
        let ghost s = raw_string@;
        let ghost all = descriptor_tokens(s);
        let mut args: Vec<FieldType> = Vec::new();
        let mut void_return = false;
        let n = raw_string.as_str().unicode_len();
        let mut i: usize = 0;
        let ghost mut done: Seq<DescriptorToken> = Seq::empty();
        assert(all =~= done + crate::field_info::scan_tokens(s, 0, true));
        while i < n
            invariant
                s == raw_string@,
                n == s.len(),
                i <= n,
                all == descriptor_tokens(s),
                all == done + crate::field_info::scan_tokens(s, i as int, true),
                args@.map_values(|t: FieldType| t@) == descriptor_fields(done),
                void_return == has_void(done),
            decreases n - i,
        {
            let raw = raw_string.as_str();
            proof {
                crate::field_info::lemma_token_bounds(s, i as int, true);
            }
            match match_token(raw, n, i, true) {
                Some(span) => {
                    let ghost t = crate::field_info::token_at(s, i as int, true)->Some_0;
                    let ghost prev_args = args@;
                    if span.kind == 2 {
                        void_return = true;
                    } else {
                        let field_type = token_type(raw, n, i, &span, true);
                        args.push(field_type);
                    }
                    proof {
                        let new_done = done.push(t);
                        assert(new_done.drop_last() =~= done);
                        assert(args@.map_values(|t: FieldType| t@) =~= descriptor_fields(new_done));
                        if has_void(new_done) && !t.void {
                            let k = choose|k: int| 0 <= k < new_done.len() && #[trigger] new_done[k].void;
                            assert(done[k] == new_done[k]);
                        }
                        if has_void(done) {
                            let k = choose|k: int| 0 <= k < done.len() && #[trigger] done[k].void;
                            assert(new_done[k] == done[k]);
                        }
                        if t.void {
                            assert(new_done[done.len() as int].void);
                        }
                        assert(all =~= new_done + crate::field_info::scan_tokens(s, span.end as int, true));
                        done = new_done;
                    }
                    i = span.end;
                },
                None => {
                    i = i + 1;
                },
            }
        }
        proof {
            assert(all =~= done);
        }
        let return_type = if void_return {
            None
        } else {
            args.pop()
        };
        proof {
            let fields = descriptor_fields(all);
            if !void_return && fields.len() > 0 {
                assert(args@.map_values(|t: FieldType| t@) =~= fields.drop_last());
            }
        }
        Self { raw: raw_string, args, return_type }
    }

    /// True when `other` is exactly the descriptor as written.
    pub fn matches(&self, other: &str) -> (r: bool)
        ensures
            r == (self.spec_raw() == other@),
    {
        let a = self.raw.as_str();
        let n = a.unicode_len();
        let m = other.unicode_len();
        if n != m {
            return false;
        }
        let mut i: usize = 0;
        while i < n
            invariant
                n == a@.len(),
                n == other@.len(),
                a@ == self.raw@,
                i <= n,
                forall|j: int| 0 <= j < i ==> a@[j] == other@[j],
            decreases n - i,
        {
            if a.get_char(i) != other.get_char(i) {
                return false;
            }
            i = i + 1;
        }
        assert(a@ =~= other@);
        true
    }

    /// The number of arguments the descriptor declares.
    pub fn args_count(&self) -> (r: usize)
        ensures
            r == self.args_model().len(),
    {
        self.args.len()
    }

    /// The descriptor as written.
    pub fn as_str(&self) -> (r: &str)
        ensures
            r@ == self.spec_raw(),
    {
        self.raw.as_str()
    }
}

impl PartialEq for MethodDescriptor {
    fn eq(&self, other: &Self) -> (r: bool) {
        self.matches(other.raw.as_str())
    }
}

impl vstd::std_specs::cmp::PartialEqSpecImpl for MethodDescriptor {
    open spec fn obeys_eq_spec() -> bool {
        true
    }

    open spec fn eq_spec(&self, other: &Self) -> bool {
        self.spec_raw() == other.spec_raw()
    }
}

} // verus!
