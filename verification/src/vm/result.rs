use vstd::prelude::*;

use crate::vm::callstack::CallFrame;
use crate::vm::value::Value;
use crate::vm::VmError;

verus! {

/// How running a piece of code ended, when it did not fail outright.
pub enum VMResultType<'f, T> {
    /// It completed with a result.
    Success(T),
    /// It called a method whose frame must run first.
    CallPaused(CallFrame<'f>),
    /// It threw an exception.
    ExceptionThrown(VmError, Value),
    /// Classes must be initialised first, by running these frames.
    NeedsClassInit(Vec<CallFrame<'f>>),
}

/// A result that may stop short of completing.
pub type VMPartialResult<'a, T> = Result<VMResultType<'a, T>, VmError>;

/// A result of the machine.
pub type VMResult<T> = Result<T, VmError>;

impl<'a, T> VMResultType<'a, T> {
    pub fn is_ok(&self) -> (r: bool)
        ensures
            r == (self is Success),
    {
        match self {
            VMResultType::Success(..) => true,
            _ => false,
        }
    }

    pub fn is_call_paused(&self) -> (r: bool)
        ensures
            r == (self is CallPaused),
    {
        match self {
            VMResultType::CallPaused(..) => true,
            _ => false,
        }
    }
}

impl<'o, T> VMResultType<'o, Option<T>> {
    /// The result of a completed run; none for any other outcome.
    pub fn to_option(self) -> (r: Option<T>)
        ensures
            r == match self {
                VMResultType::Success(value) => value,
                _ => None,
            },
    {
        match self {
            VMResultType::Success(value) => value,
            _ => None,
        }
    }
}

} // verus!
