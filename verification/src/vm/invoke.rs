//! Method invocation by the four invoke instructions. Finding the class that an invoke
//! names, which may load it, is the machine's work; what is decided here is which method
//! runs, on which receiver, with which arguments.
use vstd::prelude::*;

use crate::constants::spec_member_ref;
use crate::method_info::{descriptor_args, MethodDescriptor};
use crate::vm::callstack::{method_is_static, CallStack};
use crate::vm::class::{ClassAndMethod, Class};
use crate::vm::callstack::{with_operand_popped, FrameView};
use crate::vm::executor::{ops, operands_fit, pop_arguments, popped_n, with_dummies};
use crate::vm::value::{RefId, Value};
use crate::vm::resolution::{
    get_method_interface_virtual, get_method_virtual, is_array_clone, is_method_not_found, own_method, root,
    spec_method_interface_virtual, spec_method_virtual,
};
use crate::vm::VmError;

verus! {

/// The four ways a method is invoked.
#[derive(Debug, PartialEq, Eq, Structural, Clone, Copy)]
pub enum InvokeKind {
    Virtual,
    Special,
    Static,
    Interface,
}

/// The method that an invoke of the kind `kind` of `name` with `descriptor` selects in
/// the class `c` it names: for a special or static invoke, the class's own method where
/// it has one, else the virtual lookup; for the others the virtual lookup. The virtual
/// lookup is made in every case, so where it finds nothing the selection fails.
pub open spec fn spec_select<'a>(c: Class<'a>, name: Seq<char>, descriptor: Seq<char>, kind: InvokeKind) -> Option<
    (Class<'a>, crate::method_info::MethodInfo),
> {
    match spec_method_virtual(c, name, descriptor) {
        None => None,
        Some(found) => match kind {
            InvokeKind::Special | InvokeKind::Static => match own_method(c, name, descriptor) {
                Some(m) => Some((c, m)),
                None => Some(found),
            },
            _ => Some(found),
        },
    }
}

/// What an invoke instruction does once the class it names is known.
pub struct InvokeAction<'a> {
    /// The method selected in the named class.
    pub method: ClassAndMethod<'a>,
    /// The number of arguments that the descriptor declares, taken from the operand stack.
    pub args_count: usize,
    /// True when a receiver is taken from the operand stack below the arguments: the
    /// selected method is not static.
    pub takes_receiver: bool,
    /// True when the method that runs is looked up again in the class of the receiver:
    /// a virtual or interface invoke with a receiver.
    pub dispatches: bool,
}

/// Plans the invoke of the kind `kind` at the constant `index` of the running method
/// `cam`, given `target`, the class that the method reference names. The reference must
/// be a method reference, or the interpreter panics; that is left out by the
/// precondition, as is an array's `clone` missing from the root class.
pub fn plan_invoke<'a>(cam: &ClassAndMethod<'a>, index: u16, kind: InvokeKind, target: &'a Class<'a>) -> (r:
    Result<InvokeAction<'a>, VmError>)
    requires
        index >= 1,
        crate::constants::member_ref_named(cam.class.constants.0@, index as int, true),
        spec_member_ref(cam.class.constants.0@, index as int, true) is Some,
        target.name@ == spec_member_ref(cam.class.constants.0@, index as int, true)->Some_0.0,
        ({
            let (_, name, descriptor) = spec_member_ref(cam.class.constants.0@, index as int, true)->Some_0;
            is_array_clone(*target, name) ==> own_method(root(*target), name, descriptor) is Some
        }),
    ensures
        ({
            let (_, name, descriptor) = spec_member_ref(cam.class.constants.0@, index as int, true)->Some_0;
            match r {
                Ok(a) => {
                    &&& spec_select(*target, name, descriptor, kind) == Some((*a.method.class, *a.method.method))
                    &&& a.args_count == descriptor_args(descriptor).len()
                    &&& a.takes_receiver == !method_is_static(a.method)
                    &&& a.dispatches == (a.takes_receiver && (kind == InvokeKind::Virtual || kind
                        == InvokeKind::Interface))
                },
                Err(e) => spec_select(*target, name, descriptor, kind) is None && is_method_not_found(
                    e,
                    name,
                    descriptor,
                    target.name@,
                ),
            }
        }),
{
    let (_class_name, method_name, descriptor) = match cam.get_constant_method_info_descriptor(index) {
        Some(t) => t,
        None => {
            proof {
                assert(false);
            }
            return Err(VmError::Unspecified(String::new()));
        },
    };
    let args_count = MethodDescriptor::new(descriptor.clone()).args_count();
    let virtual_method = get_method_virtual(target, method_name.as_str(), descriptor.as_str())?;
    let method = match kind {
        InvokeKind::Special | InvokeKind::Static => match target.find_method(
            method_name.as_str(),
            descriptor.as_str(),
        ) {
            Some(m) => {
                proof {
                    let i = choose|i: int|
                        0 <= i < target.methods@.len() && target.methods@[i] == *m
                            && crate::vm::class::method_matches(
                            target.methods@[i],
                            method_name@,
                            descriptor@,
                        ) && forall|j: int|
                            0 <= j < i ==> !crate::vm::class::method_matches(
                                #[trigger] target.methods@[j],
                                method_name@,
                                descriptor@,
                            );
                    crate::vm::resolution::lemma_first_method(target.methods@, method_name@, descriptor@, i);
                }
                ClassAndMethod { class: target, method: m }
            },
            None => {
                proof {
                    assert(!(exists|i: int|
                        0 <= i < target.methods@.len() && crate::vm::class::method_matches(
                            #[trigger] target.methods@[i],
                            method_name@,
                            descriptor@,
                        )));
                }
                virtual_method
            },
        },
        _ => virtual_method,
    };
    let takes_receiver = !method.method.is_static();
    let dispatches = takes_receiver && (kind == InvokeKind::Virtual || kind == InvokeKind::Interface);
    Ok(InvokeAction { method, args_count, takes_receiver, dispatches })
}

/// The method that a dispatching invoke runs: `method` looked up again, by its name and
/// descriptor, in `receiver_class`, the class of the receiver, virtually for a virtual
/// invoke and as an interface method for an interface invoke. Any other invoke runs
/// `method` itself.
pub fn dispatch_method<'a>(method: ClassAndMethod<'a>, kind: InvokeKind, receiver_class: &'a Class<'a>) -> (r:
    Result<ClassAndMethod<'a>, VmError>)
    requires
        kind == InvokeKind::Virtual && is_array_clone(*receiver_class, method.method.name@) ==> own_method(
            root(*receiver_class),
            method.method.name@,
            method.method.descriptor.spec_raw(),
        ) is Some,
    ensures
        kind == InvokeKind::Virtual ==> match r {
            Ok(cam) => spec_method_virtual(*receiver_class, method.method.name@, method.method.descriptor.spec_raw())
                == Some((*cam.class, *cam.method)),
            Err(e) => spec_method_virtual(*receiver_class, method.method.name@, method.method.descriptor.spec_raw())
                is None && is_method_not_found(
                e,
                method.method.name@,
                method.method.descriptor.spec_raw(),
                receiver_class.name@,
            ),
        },
        kind == InvokeKind::Interface ==> match r {
            Ok(cam) => spec_method_interface_virtual(
                *receiver_class,
                method.method.name@,
                method.method.descriptor.spec_raw(),
            ) == Some((*cam.class, *cam.method)),
            Err(e) => spec_method_interface_virtual(
                *receiver_class,
                method.method.name@,
                method.method.descriptor.spec_raw(),
            ) is None && is_method_not_found(
                e,
                method.method.name@,
                method.method.descriptor.spec_raw(),
                receiver_class.name@,
            ),
        },
        (kind == InvokeKind::Special || kind == InvokeKind::Static) ==> r == Ok::<ClassAndMethod<'a>, VmError>(
            method,
        ),
{
    match kind {
        InvokeKind::Virtual => get_method_virtual(
            receiver_class,
            method.method.name.as_str(),
            method.method.descriptor.as_str(),
        ),
        InvokeKind::Interface => get_method_interface_virtual(
            receiver_class,
            method.method.name.as_str(),
            method.method.descriptor.as_str(),
        ),
        _ => Ok(method),
    }
}

/// The receiver of an invoke whose arguments take the top `args_count` operands of `s`:
/// the operand below them, if there is one.
pub open spec fn receiver_operand<'a>(s: Seq<FrameView<'a>>, args_count: int) -> Option<Value> {
    if ops(s).len() > args_count {
        Some(ops(s)[ops(s).len() - args_count - 1])
    } else {
        None
    }
}

/// Takes what the invoke planned as `action` needs from the innermost operand stack: its
/// arguments, the first one deepest, laid out as argument slots, and, for a method that
/// is not static, the receiver below them, which must be a reference other than null or
/// the invoke is refused with a validation error. The machine then finds the receiver's
/// class (for [`dispatch_method`]) and pushes the invocation. Too few operands for the
/// arguments panic; that is left out by the precondition.
pub fn take_arguments<'a>(stack: &mut CallStack<'a>, action: &InvokeAction<'a>) -> (r: Result<
    (Vec<Value>, Option<RefId>),
    VmError,
>)
    requires
        old(stack)@.len() > 0,
        ops(old(stack)@).len() >= action.args_count,
        operands_fit(old(stack)@),
    ensures
        operands_fit(final(stack)@),
        ({
            let s = old(stack)@;
            let n = action.args_count as int;
            let args = with_dummies(ops(s).skip(ops(s).len() - n));
            if !action.takes_receiver {
                r matches Ok((a, None)) && a@ == args && final(stack)@ == popped_n(s, n)
            } else {
                match receiver_operand(s, n) {
                    Some(Value::Reference(id)) => if id.0 != 0 {
                        r matches Ok((a, Some(o))) && a@ == args && o == id && final(stack)@ == popped_n(
                            s,
                            n + 1,
                        )
                    } else {
                        (r matches Err(VmError::ValidationError(_))) && final(stack)@ == popped_n(s, n + 1)
                    },
                    Some(_) => (r matches Err(VmError::ValidationError(_))) && final(stack)@ == popped_n(s, n + 1),
                    None => (r matches Err(VmError::ValidationError(_))) && final(stack)@ == popped_n(s, n),
                }
            }
        }),
{
    let ghost s = stack@;
    let args = pop_arguments(stack, action.args_count);
    if !action.takes_receiver {
        return Ok((args, None));
    }
    let ghost mid = stack@;
    let popped = stack.pop_operand_value();
    proof {
        let n = action.args_count as int;
        assert(ops(mid) =~= ops(s).take(ops(s).len() - n));
        if ops(mid).len() > 0 {
            assert(ops(with_operand_popped(mid)) =~= ops(s).take(ops(s).len() - n - 1));
            assert(stack@ =~= popped_n(s, n + 1));
        } else {
            assert(stack@ =~= popped_n(s, n + 1));
        }
    }
    match popped {
        Some(Value::Reference(id)) => if id.0 != 0 {
            Ok((args, Some(id)))
        } else {
            Err(VmError::ValidationError("the receiver of an instance method is null".to_string()))
        },
        _ => Err(VmError::ValidationError("expected an object or array as receiver".to_string())),
    }
}

} // verus!
