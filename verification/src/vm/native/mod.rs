//! Native methods of the Java class library that the machine implements itself. Each
//! takes the arguments of the call (a `long` or `double` argument is followed by a
//! `Dummy` slot) and hands back the method's value, or none for `void`.
use vstd::prelude::*;

use crate::vm::value::Value;
use crate::vm::VmError;

pub mod java_io;
pub mod java_lang_class;
pub mod java_lang_numbers;
pub mod java_lang_system;
pub mod registry;
pub mod sun_misc_unsafe;

verus! {

/// What a native method hands back: its value, or none for `void`; or an error when the
/// arguments are not what the method takes.
pub type NativeResult = Result<Option<Value>, VmError>;

/// The argument `i` of a call, if it was passed.
pub open spec fn arg(args: Seq<Value>, i: int) -> Option<Value> {
    if 0 <= i < args.len() {
        Some(args[i])
    } else {
        None
    }
}

/// The value Java code sees for a boolean: the int 1 or 0.
pub open spec fn java_bool(b: bool) -> Value {
    Value::Integer(if b { 1 } else { 0 })
}

/// The argument `i` of a call, if it was passed.
pub fn get_arg(args: &Vec<Value>, i: usize) -> (r: Option<Value>)
    ensures
        r == arg(args@, i as int),
{
    if i < args.len() {
        Some(args[i])
    } else {
        None
    }
}

/// The result of a native method that hands back `value`.
pub fn non_failing_some(value: Value) -> (r: NativeResult)
    ensures
        r == Ok::<Option<Value>, VmError>(Some(value)),
{
    Ok(Some(value))
}

/// The result of a `void` native method.
pub fn non_failing_none() -> (r: NativeResult)
    ensures
        r == Ok::<Option<Value>, VmError>(None),
{
    Ok(None)
}

} // verus!
