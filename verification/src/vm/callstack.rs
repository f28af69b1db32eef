use vstd::prelude::*;

use crate::access_flags::MethodFlag;
use crate::attribute::{LineNumberTable, ProgramCounter};
use crate::vm::class::ClassAndMethod;
use crate::vm::value::{RefId, Value};

verus! {

/// A method invocation on the call stack.
pub struct CallFrame<'a> {
    pub class_and_method: ClassAndMethod<'a>,
    /// Whether the caller expects the method's result on its operand stack.
    pub should_push_return: bool,
}

/// One invocation with its operand stack, local variables and position in the code.
struct FrameState<'a> {
    frame: CallFrame<'a>,
    operands: Vec<Value>,
    max_stack: usize,
    locals: Vec<Value>,
    pc: ProgramCounter,
}

/// The mathematical content of one invocation on a [`CallStack`].
#[verifier::ext_equal]
pub struct FrameView<'a> {
    pub class_and_method: ClassAndMethod<'a>,
    pub should_push_return: bool,
    /// The operand stack, bottom first.
    pub operands: Seq<Value>,
    /// How many operands the stack can hold.
    pub max_stack: usize,
    pub locals: Seq<Value>,
    pub pc: u16,
}

impl<'a> FrameState<'a> {
    spec fn view(&self) -> FrameView<'a> {
        FrameView {
            class_and_method: self.frame.class_and_method,
            should_push_return: self.frame.should_push_return,
            operands: self.operands@,
            max_stack: self.max_stack,
            locals: self.locals@,
            pc: self.pc.0,
        }
    }
}

/// True when the method is static.
pub open spec fn method_is_static(cam: ClassAndMethod) -> bool {
    cam.method.flags@.contains(MethodFlag::Static)
}

/// The local variables a new invocation starts with: `this` first for an instance
/// method, then the arguments, as many as there are slots, the other slots
/// uninitialised. A static method gets one slot more than its code declares.
pub open spec fn initial_locals(
    max_locals: int,
    is_static: bool,
    object: Option<RefId>,
    args: Seq<Value>,
) -> Seq<Value> {
    let len = if is_static {
        max_locals + 1
    } else {
        max_locals
    };
    let offset: int = if is_static {
        0
    } else {
        1
    };
    Seq::new(
        len as nat,
        |i: int|
            if !is_static && i == 0 {
                Value::Reference(object->Some_0)
            } else if i - offset < args.len() {
                args[i - offset]
            } else {
                Value::Uninitialized
            },
    )
}

/// `stack` with `val` pushed on the innermost operand stack.
pub open spec fn with_operand_pushed<'a>(stack: Seq<FrameView<'a>>, val: Value) -> Seq<FrameView<'a>> {
    stack.update(
        stack.len() - 1,
        FrameView { operands: stack.last().operands.push(val), ..stack.last() },
    )
}

/// `stack` with the top of the innermost operand stack removed.
pub open spec fn with_operand_popped<'a>(stack: Seq<FrameView<'a>>) -> Seq<FrameView<'a>> {
    stack.update(
        stack.len() - 1,
        FrameView { operands: stack.last().operands.drop_last(), ..stack.last() },
    )
}

/// `stack` with `val` in the local variable `index` of the innermost invocation.
pub open spec fn with_local_stored<'a>(stack: Seq<FrameView<'a>>, val: Value, index: int) -> Seq<
    FrameView<'a>,
> {
    stack.update(
        stack.len() - 1,
        FrameView { locals: stack.last().locals.update(index, val), ..stack.last() },
    )
}

/// The method invocations of a thread, innermost last.
pub struct CallStack<'a> {
    frames: Vec<FrameState<'a>>,
}

impl<'a> View for CallStack<'a> {
    type V = Seq<FrameView<'a>>;

    closed spec fn view(&self) -> Seq<FrameView<'a>> {
        self.frames@.map_values(|f: FrameState<'a>| f.view())
    }
}

impl<'a> CallStack<'a> {
    /// An empty call stack.
    pub fn new() -> (r: Self)
        ensures
            r@ == Seq::<FrameView<'a>>::empty(),
    {
        let r = CallStack { frames: Vec::new() };
        assert(r@ =~= Seq::<FrameView<'a>>::empty());
        r
    }

    /// Pushes an invocation of `class_and_method` on `object` (none for a static method)
    /// with the arguments `args`, at the start of the code and with an empty operand
    /// stack. An instance method without `this`, or without a slot for it, panics, so that
    /// is left out by the precondition.
    pub fn create_and_push_call_frame(
        &mut self,
        class_and_method: ClassAndMethod<'a>,
        object: Option<RefId>,
        args: Vec<Value>,
        should_push_return: bool,
    )
        requires
            !method_is_static(class_and_method) ==> object is Some,
            !method_is_static(class_and_method) ==> (class_and_method.method.code matches Some(
                code,
            ) && code.max_locals >= 1),
        ensures
            final(self)@ == old(self)@.push(
                FrameView {
                    class_and_method,
                    should_push_return,
                    operands: Seq::empty(),
                    max_stack: match class_and_method.method.code {
                        Some(code) => code.max_stack as usize,
                        None => 0,
                    },
                    locals: initial_locals(
                        match class_and_method.method.code {
                            Some(code) => code.max_locals as int,
                            None => 0,
                        },
                        method_is_static(class_and_method),
                        object,
                        args@,
                    ),
                    pc: 0,
                },
            ),
    {
        let is_static = class_and_method.method.is_static();
        let max_locals = class_and_method.get_max_locals();
        let len = if is_static {
            max_locals + 1
        } else {
            max_locals
        };
        let offset: usize = if is_static {
            0
        } else {
            1
        };
        let ghost expected = initial_locals(max_locals as int, is_static, object, args@);
        let mut locals: Vec<Value> = Vec::new();
        let mut i: usize = 0;
        while i < len
            invariant
                i <= len,
                len == expected.len(),
                offset == (if is_static { 0usize } else { 1usize }),
                expected == initial_locals(max_locals as int, is_static, object, args@),
                !is_static ==> object is Some,
                locals@ == expected.take(i as int),
            decreases len - i,
        {
            let value = if !is_static && i == 0 {
                match object {
                    Some(o) => Value::Reference(o),
                    None => Value::Uninitialized,
                }
            } else if i - offset < args.len() {
                args[i - offset]
            } else {
                Value::Uninitialized
            };
            locals.push(value);
            i = i + 1;
            assert(locals@ =~= expected.take(i as int));
        }
        assert(locals@ =~= expected);
        let max_stack = class_and_method.get_max_stack_size();
        let state = FrameState {
            frame: CallFrame { class_and_method, should_push_return },
            operands: Vec::new(),
            max_stack,
            locals,
            pc: ProgramCounter(0),
        };
        assert(state.operands@ =~= Seq::<Value>::empty());
        self.frames.push(state);
        assert(self@ =~= old(self)@.push(state.view()));
    }

    /// Removes the innermost invocation and returns it. An empty stack panics, so it is
    /// left out by the precondition.
    pub fn pop_call_frame(&mut self) -> (r: CallFrame<'a>)
        requires
            old(self)@.len() > 0,
        ensures
            final(self)@ == old(self)@.drop_last(),
            r.class_and_method == old(self)@.last().class_and_method,
            r.should_push_return == old(self)@.last().should_push_return,
    {
        let state = self.frames.pop().unwrap();
        assert(self@ =~= old(self)@.drop_last());
        state.frame
    }

    /// Removes the invocation at position `index` (0 is the outermost) and returns it. A
    /// position past the innermost invocation panics, so it is left out by the
    /// precondition.
    pub fn pop_call_frame_at(&mut self, index: usize) -> (r: CallFrame<'a>)
        requires
            index < old(self)@.len(),
        ensures
            final(self)@ == old(self)@.remove(index as int),
            r.class_and_method == old(self)@[index as int].class_and_method,
            r.should_push_return == old(self)@[index as int].should_push_return,
    {
        let state = self.frames.remove(index);
        assert(self@ =~= old(self)@.remove(index as int));
        state.frame
    }

    /// Pushes `val` on the innermost operand stack. A full stack overflows and panics, so
    /// that is left out by the precondition, like an empty call stack.
    pub fn push_operand_value(&mut self, val: Value)
        requires
            old(self)@.len() > 0,
            old(self)@.last().operands.len() < old(self)@.last().max_stack,
        ensures
            final(self)@ == with_operand_pushed(old(self)@, val),
    {
        let last = self.frames.len() - 1;
        let mut state = self.frames.remove(last);
        state.operands.push(val);
        self.frames.push(state);
        assert(self@ =~= old(self)@.update(
            old(self)@.len() - 1,
            FrameView { operands: old(self)@.last().operands.push(val), ..old(self)@.last() },
        ));
    }

    /// Pops the top of the innermost operand stack; none when it is empty.
    pub fn pop_operand_value(&mut self) -> (r: Option<Value>)
        requires
            old(self)@.len() > 0,
        ensures
            old(self)@.last().operands.len() == 0 ==> r is None && final(self)@ == old(self)@,
            old(self)@.last().operands.len() > 0 ==> r == Some(old(self)@.last().operands.last())
                && final(self)@ == with_operand_popped(old(self)@),
    {
        let last = self.frames.len() - 1;
        let mut state = self.frames.remove(last);
        let r = state.operands.pop();
        self.frames.push(state);
        if r.is_none() {
            assert(self@ =~= old(self)@);
        } else {
            assert(self@ =~= old(self)@.update(
                old(self)@.len() - 1,
                FrameView {
                    operands: old(self)@.last().operands.drop_last(),
                    ..old(self)@.last()
                },
            ));
        }
        r
    }

    /// Stores `val` in the local variable `index` of the innermost invocation. A slot
    /// that does not exist panics, so it is left out by the precondition.
    pub fn store_local(&mut self, val: Value, index: usize)
        requires
            old(self)@.len() > 0,
            index < old(self)@.last().locals.len(),
        ensures
            final(self)@ == with_local_stored(old(self)@, val, index as int),
    {
        let last = self.frames.len() - 1;
        let mut state = self.frames.remove(last);
        state.locals.set(index, val);
        self.frames.push(state);
        assert(self@ =~= old(self)@.update(
            old(self)@.len() - 1,
            FrameView {
                locals: old(self)@.last().locals.update(index as int, val),
                ..old(self)@.last()
            },
        ));
    }

    /// The local variable `index` of the innermost invocation; none past its last slot.
    pub fn load_local(&self, index: usize) -> (r: Option<Value>)
        requires
            self@.len() > 0,
        ensures
            index < self@.last().locals.len() ==> r == Some(self@.last().locals[index as int]),
            index >= self@.last().locals.len() ==> r is None,
    {
        let state = &self.frames[self.frames.len() - 1];
        if index < state.locals.len() {
            Some(state.locals[index])
        } else {
            None
        }
    }

    /// Moves the innermost invocation to the position `val` in its code.
    pub fn set_pc(&mut self, val: u16)
        requires
            old(self)@.len() > 0,
        ensures
            final(self)@ == old(self)@.update(
                old(self)@.len() - 1,
                FrameView { pc: val, ..old(self)@.last() },
            ),
    {
        let last = self.frames.len() - 1;
        let mut state = self.frames.remove(last);
        state.pc = ProgramCounter(val);
        self.frames.push(state);
        assert(self@ =~= old(self)@.update(
            old(self)@.len() - 1,
            FrameView { pc: val, ..old(self)@.last() },
        ));
    }

    /// The position of the innermost invocation in its code.
    pub fn get_pc(&self) -> (r: ProgramCounter)
        requires
            self@.len() > 0,
        ensures
            r.0 == self@.last().pc,
    {
        self.frames[self.frames.len() - 1].pc
    }

    /// The method of the innermost invocation.
    pub fn get_class_and_method_cloned(&self) -> (r: ClassAndMethod<'a>)
        requires
            self@.len() > 0,
        ensures
            r == self@.last().class_and_method,
    {
        let cam = &self.frames[self.frames.len() - 1].frame.class_and_method;
        ClassAndMethod { class: cam.class, method: cam.method }
    }

    /// The number of invocations.
    pub fn len(&self) -> (r: usize)
        ensures
            r == self@.len(),
    {
        self.frames.len()
    }

    /// True when there is no invocation.
    pub fn is_empty(&self) -> (r: bool)
        ensures
            r == (self@.len() == 0),
    {
        self.frames.len() == 0
    }

    /// The number of operands on the innermost operand stack.
    pub fn operand_count(&self) -> (r: usize)
        requires
            self@.len() > 0,
        ensures
            r == self@.last().operands.len(),
    {
        self.frames[self.frames.len() - 1].operands.len()
    }

    /// How many operands the innermost operand stack can hold.
    pub fn max_stack(&self) -> (r: usize)
        requires
            self@.len() > 0,
        ensures
            r == self@.last().max_stack,
    {
        self.frames[self.frames.len() - 1].max_stack
    }

    /// The operand `k` places below the top of the innermost operand stack, left in
    /// place; none past the bottom.
    pub fn peek_operand(&self, k: usize) -> (r: Option<Value>)
        requires
            self@.len() > 0,
        ensures
            k < self@.last().operands.len() ==> r == Some(
                self@.last().operands[self@.last().operands.len() - 1 - k],
            ),
            k >= self@.last().operands.len() ==> r is None,
    {
        let state = &self.frames[self.frames.len() - 1];
        if k < state.operands.len() {
            Some(state.operands[state.operands.len() - 1 - k])
        } else {
            None
        }
    }

    /// The top of the innermost operand stack, left in place; none when it is empty.
    pub fn top_operand(&self) -> (r: Option<Value>)
        requires
            self@.len() > 0,
        ensures
            self@.last().operands.len() == 0 ==> r is None,
            self@.last().operands.len() > 0 ==> r == Some(self@.last().operands.last()),
    {
        let state = &self.frames[self.frames.len() - 1];
        if state.operands.len() > 0 {
            Some(state.operands[state.operands.len() - 1])
        } else {
            None
        }
    }

    /// The position in the code of the invocation at `index`.
    pub fn pc_at(&self, index: usize) -> (r: u16)
        requires
            index < self@.len(),
        ensures
            r == self@[index as int].pc,
    {
        self.frames[index].pc.0
    }
}

/// The source line that the code position `pc` belongs to: the line of the last table
/// row (in table order) that starts before `pc`, or that starts at 0 when `pc` is 0; -1
/// when there is none.
pub open spec fn spec_line_number_at(rows: Seq<(u16, u16)>, pc: u16) -> int
    decreases rows.len(),
{
    if rows.len() == 0 {
        -1
    } else if rows.last().0 < pc || (pc == 0 && rows.last().0 == 0) {
        rows.last().1 as int
    } else {
        spec_line_number_at(rows.drop_last(), pc)
    }
}

/// The rows of a line number table as (code position, line) pairs.
pub open spec fn table_rows(table: LineNumberTable) -> Seq<(u16, u16)> {
    table.0@.map_values(|e: crate::attribute::LineNumberTableEntry| (e.program_counter.0, e.line_number.0))
}

/// The source line that the code position `pc` belongs to, as a stack trace shows it.
pub fn line_number_at(table: &LineNumberTable, pc: u16) -> (r: i32)
    ensures
        r == spec_line_number_at(table_rows(*table), pc),
{
    let ghost rows = table_rows(*table);
    let mut i: usize = table.0.len();
    assert(rows.take(i as int) =~= rows);
    while i > 0
        invariant
            i <= table.0@.len(),
            rows == table_rows(*table),
            spec_line_number_at(rows, pc) == spec_line_number_at(rows.take(i as int), pc),
        decreases i,
    {
        let entry = &table.0[i - 1];
        proof {
            assert(rows.take(i as int).drop_last() =~= rows.take(i - 1));
        }
        if entry.program_counter.0 < pc || (pc == 0 && entry.program_counter.0 == 0) {
            return entry.line_number.0 as i32;
        }
        i = i - 1;
    }
    -1
}

/// Popping an operand right after pushing it gives the operand back and leaves the call
/// stack as it was.
pub proof fn law_push_then_pop_operand<'a>(stack: Seq<FrameView<'a>>, val: Value)
    requires
        stack.len() > 0,
    ensures
        with_operand_pushed(stack, val).last().operands.len() > 0,
        with_operand_pushed(stack, val).last().operands.last() == val,
        with_operand_popped(with_operand_pushed(stack, val)) == stack,
{
    let pushed = with_operand_pushed(stack, val);
    assert(pushed.last().operands.drop_last() =~= stack.last().operands);
    assert(with_operand_popped(pushed) =~= stack);
}

/// A local variable reads back the value last stored in it, and storing leaves the
/// other local variables, the operand stack and the other invocations alone.
pub proof fn law_load_after_store<'a>(stack: Seq<FrameView<'a>>, val: Value, index: int, other: int)
    requires
        stack.len() > 0,
        0 <= index < stack.last().locals.len(),
        0 <= other < stack.last().locals.len(),
        other != index,
    ensures
        with_local_stored(stack, val, index).last().locals[index] == val,
        with_local_stored(stack, val, index).last().locals[other] == stack.last().locals[other],
        with_local_stored(stack, val, index).last().operands == stack.last().operands,
        with_local_stored(stack, val, index).drop_last() == stack.drop_last(),
{
    assert(with_local_stored(stack, val, index).drop_last() =~= stack.drop_last());
}

/// A new invocation of an instance method sees `this` in its first local variable and
/// the arguments after it, as many as fit.
pub proof fn law_arguments_follow_this(max_locals: int, object: RefId, args: Seq<Value>, k: int)
    requires
        max_locals >= 1,
        0 <= k < args.len(),
        k + 1 < max_locals,
    ensures
        initial_locals(max_locals, false, Some(object), args)[0] == Value::Reference(object),
        initial_locals(max_locals, false, Some(object), args)[k + 1] == args[k],
{
}

/// Pushing an invocation and popping it again gives back the call stack as it was.
pub proof fn law_push_then_pop_frame<'a>(stack: Seq<FrameView<'a>>, frame: FrameView<'a>)
    ensures
        stack.push(frame).drop_last() == stack,
        stack.push(frame).last() == frame,
{
    assert(stack.push(frame).drop_last() =~= stack);
}

} // verus!
