//! The decisions of the machine's run loop: what happens to the call stack after the
//! innermost invocation has run a step. Running the step (the interpreter, a native
//! method, class loading) is the machine's work; it reports how the step ended as a
//! [`StepEvent`] and goes on as the [`NextAction`] says.
use vstd::prelude::*;

use crate::vm::callstack::{initial_locals, method_is_static, with_operand_pushed, CallStack, FrameView};
use crate::vm::class::{Class, ClassAndMethod};
use crate::vm::resolution::{handler_applies, try_resolve_exception_handler};
use crate::vm::value::{RefId, Value};

verus! {

/// An invocation to push on the call stack: the method, its receiver (none for a static
/// method), its arguments, and whether its result goes onto the caller's operands.
pub struct Invocation<'a> {
    pub method: ClassAndMethod<'a>,
    pub object: Option<RefId>,
    pub args: Vec<Value>,
    pub should_push_return: bool,
}

/// How a step of the innermost invocation ended.
pub enum StepEvent<'a> {
    /// The innermost method returned, with its value or without one.
    Returned(Option<Value>),
    /// It called a method whose invocation runs first.
    Called(Invocation<'a>),
    /// Classes must be initialised first: the invocations of their initialisers, pushed
    /// in this order.
    NeedsClassInit(Vec<Invocation<'a>>),
    /// It threw the object `throwable`, whose class is `thrown`.
    Thrown(&'a Class<'a>, Value),
}

/// What the machine does next.
#[derive(Debug, PartialEq, Eq, Structural, Clone, Copy)]
pub enum NextAction {
    /// Run the innermost invocation.
    Continue,
    /// The outermost invocation returned: the run ends with this value.
    Finished(Option<Value>),
    /// No handler of the innermost invocation caught the exception: its invocation is gone
    /// and the exception goes on to the caller, reported again as thrown.
    Propagate,
}

/// True when `inv` can be pushed: an instance method has a receiver and a slot for it.
pub open spec fn invocation_ok<'a>(inv: Invocation<'a>) -> bool {
    &&& !method_is_static(inv.method) ==> inv.object is Some
    &&& !method_is_static(inv.method) ==> (inv.method.method.code matches Some(code) && code.max_locals >= 1)
}

/// The invocation `inv` as it stands on the stack once pushed: at the start of its code,
/// with an empty operand stack and its receiver and arguments in its locals.
pub open spec fn invocation_view<'a>(inv: Invocation<'a>) -> FrameView<'a> {
    FrameView {
        class_and_method: inv.method,
        should_push_return: inv.should_push_return,
        operands: Seq::empty(),
        max_stack: match inv.method.method.code {
            Some(code) => code.max_stack as usize,
            None => 0,
        },
        locals: initial_locals(
            match inv.method.method.code {
                Some(code) => code.max_locals as int,
                None => 0,
            },
            method_is_static(inv.method),
            inv.object,
            inv.args@,
        ),
        pc: 0,
    }
}

/// `s` with the invocations `invs` pushed, the first one first.
pub open spec fn pushed_all<'a>(s: Seq<FrameView<'a>>, invs: Seq<Invocation<'a>>) -> Seq<FrameView<'a>> {
    s + invs.map_values(|inv: Invocation<'a>| invocation_view(inv))
}

/// The stack after the innermost invocation returned `v`: its invocation is gone, and the
/// value goes onto the caller's operands where the caller expects one.
pub open spec fn returned_into_caller<'a>(s: Seq<FrameView<'a>>, v: Option<Value>) -> Seq<FrameView<'a>> {
    if s.last().should_push_return && v is Some {
        with_operand_pushed(s.drop_last(), v->Some_0)
    } else {
        s.drop_last()
    }
}

/// A call whose invocation then returns a value leaves the caller as it was, with the
/// value on top of its operands when it expects one, and unchanged otherwise.
pub proof fn law_call_then_return<'a>(s: Seq<FrameView<'a>>, inv: Invocation<'a>, v: Value)
    requires
        s.len() > 0,
    ensures
        inv.should_push_return ==> returned_into_caller(s.push(invocation_view(inv)), Some(v))
            == with_operand_pushed(s, v),
        !inv.should_push_return ==> returned_into_caller(s.push(invocation_view(inv)), Some(v)) == s,
{
    assert(s.push(invocation_view(inv)).drop_last() =~= s);
}

/// True when the machine may report `event` for the stack `s` without a panic: there is
/// an innermost invocation; a returned value fits on the caller's operands; pushed
/// invocations have their receivers; a throwing invocation has code, and the throwable
/// fits on its operands where a handler catches it.
pub open spec fn event_ok<'a>(s: Seq<FrameView<'a>>, event: StepEvent<'a>) -> bool {
    match event {
        StepEvent::Returned(v) => {
            &&& s.len() > 0
            &&& s.len() > 1 && s.last().should_push_return && v is Some ==> s[s.len() - 2].operands.len() < s[s.len()
                - 2].max_stack
        },
        StepEvent::Called(inv) => invocation_ok(inv),
        StepEvent::NeedsClassInit(invs) => forall|i: int| 0 <= i < invs@.len() ==> invocation_ok(#[trigger] invs@[i]),
        StepEvent::Thrown(_, _) => {
            &&& s.len() > 0
            &&& s.last().class_and_method.method.code is Some
            &&& s.last().operands.len() < s.last().max_stack
        },
    }
}

/// The first handler of the innermost invocation that catches an exception of the class
/// `thrown` at the invocation's position, as an index into its exception table.
pub open spec fn catches_first<'a>(s: Seq<FrameView<'a>>, thrown: Class<'a>, i: int) -> bool {
    let table = s.last().class_and_method.method.code->Some_0.exception_table.0@;
    &&& 0 <= i < table.len()
    &&& handler_applies(table[i], s.last().pc, thrown)
    &&& forall|j: int| 0 <= j < i ==> !handler_applies(#[trigger] table[j], s.last().pc, thrown)
}

/// Applies what a step of the innermost invocation came to. A return removes the
/// invocation, and either hands its value to the caller or, for the outermost one, ends
/// the run with it. A call or class initialisation pushes the new invocations in order.
/// A thrown exception moves the invocation to the first of its handlers that catches it,
/// with the throwable on its operands; where none does, the invocation is removed and
/// the exception propagates.
pub fn after_step<'a>(stack: &mut CallStack<'a>, event: StepEvent<'a>) -> (r: NextAction)
    requires
        event_ok(old(stack)@, event),
    ensures
        ({
            let s = old(stack)@;
            match event {
                StepEvent::Returned(v) => if s.len() == 1 {
                    r == NextAction::Finished(v) && final(stack)@ == s.drop_last()
                } else {
                    r == NextAction::Continue && final(stack)@ == returned_into_caller(s, v)
                },
                StepEvent::Called(inv) => r == NextAction::Continue && final(stack)@ == s.push(
                    invocation_view(inv),
                ),
                StepEvent::NeedsClassInit(invs) => r == NextAction::Continue && final(stack)@ == pushed_all(
                    s,
                    invs@,
                ),
                StepEvent::Thrown(thrown, throwable) => {
                    let table = s.last().class_and_method.method.code->Some_0.exception_table.0@;
                    match r {
                        NextAction::Continue => exists|i: int|
                            catches_first(s, *thrown, i) && final(stack)@ == with_operand_pushed(
                                s.update(s.len() - 1, FrameView { pc: table[i].handler_pc.0, ..s.last() }),
                                throwable,
                            ),
                        NextAction::Propagate => (forall|i: int|
                            0 <= i < table.len() ==> !handler_applies(#[trigger] table[i], s.last().pc, *thrown))
                            && final(stack)@ == s.drop_last(),
                        NextAction::Finished(_) => false,
                    }
                },
            }
        }),
{
    match event {
        StepEvent::Returned(v) => {
            let frame = stack.pop_call_frame();
            if stack.is_empty() {
                return NextAction::Finished(v);
            }
            if frame.should_push_return {
                if let Some(value) = v {
                    stack.push_operand_value(value);
                }
            }
            NextAction::Continue
        },
        StepEvent::Called(inv) => {
            stack.create_and_push_call_frame(inv.method, inv.object, inv.args, inv.should_push_return);
            NextAction::Continue
        },
        StepEvent::NeedsClassInit(invs) => {
            let ghost s = stack@;
            let ghost all = invs@;
            let mut rest = invs;
            let mut k: usize = 0;
            let n = rest.len();
            while k < n
                invariant
                    n == all.len(),
                    k <= n,
                    rest@ == all.skip(k as int),
                    forall|i: int| 0 <= i < all.len() ==> invocation_ok(#[trigger] all[i]),
                    stack@ == pushed_all(s, all.take(k as int)),
                decreases n - k,
            {
                let inv = rest.remove(0);
                proof {
                    assert(inv == all[k as int]);
                    assert(invocation_ok(all[k as int]));
                }
                stack.create_and_push_call_frame(inv.method, inv.object, inv.args, inv.should_push_return);
                proof {
                    assert(all.take(k + 1) =~= all.take(k as int).push(all[k as int]));
                    assert(pushed_all(s, all.take(k + 1)) =~= pushed_all(s, all.take(k as int)).push(
                        invocation_view(all[k as int]),
                    ));
                    assert(rest@ =~= all.skip(k + 1));
                }
                k = k + 1;
            }
            proof {
                assert(all.take(n as int) =~= all);
            }
            NextAction::Continue
        },
        StepEvent::Thrown(thrown, throwable) => {
            let ghost s = stack@;
            let cam = stack.get_class_and_method_cloned();
            let table = cam.method.get_exception_handlers();
            let pc = stack.get_pc();
            match try_resolve_exception_handler(&table, pc, thrown) {
                Some(handler) => {
                    let ghost entries = table.0@;
                    let ghost i = choose|i: int|
                        0 <= i < entries.len() && handler_applies(entries[i], pc.0, *thrown) && entries[i].handler_pc
                            == handler && forall|j: int|
                            0 <= j < i ==> !handler_applies(#[trigger] entries[j], pc.0, *thrown);
                    stack.set_pc(handler.0);
                    stack.push_operand_value(throwable);
                    proof {
                        assert(catches_first(s, *thrown, i));
                        assert(stack@ == with_operand_pushed(
                            s.update(s.len() - 1, FrameView { pc: entries[i].handler_pc.0, ..s.last() }),
                            throwable,
                        ));
                    }
                    NextAction::Continue
                },
                None => {
                    stack.pop_call_frame();
                    NextAction::Propagate
                },
            }
        },
    }
}

} // verus!
