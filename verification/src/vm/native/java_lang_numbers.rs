//! `java.lang.Float` and `java.lang.Double` natives. Floats are held as their bit
//! patterns, so these natives only move bits between kinds of values.
use vstd::prelude::*;

use crate::vm::native::{arg, get_arg, non_failing_some, NativeResult};
use crate::vm::value::Value;
use crate::vm::VmError;

verus! {

/// `Float.floatToRawIntBits`: the bits of the float argument, as an int.
pub fn delegate_float_to_raw_bits(args: &Vec<Value>) -> (r: NativeResult)
    ensures
        match arg(args@, 0) {
            Some(Value::Float(bits)) => r == Ok::<Option<Value>, VmError>(Some(Value::Integer(bits as i32))),
            _ => r matches Err(VmError::ValidationError(_)),
        },
{
    if let Some(Value::Float(value)) = get_arg(args, 0) {
        non_failing_some(Value::Integer(value as i32))
    } else {
        Err(VmError::ValidationError("Expected float".to_string()))
    }
}

/// `Double.doubleToRawLongBits`: the bits of the double argument, as a long.
pub fn delegate_double_to_raw_bits(args: &Vec<Value>) -> (r: NativeResult)
    ensures
        match arg(args@, 0) {
            Some(Value::Double(bits)) => r == Ok::<Option<Value>, VmError>(Some(Value::Long(bits as i64))),
            _ => r matches Err(VmError::ValidationError(_)),
        },
{
    if let Some(Value::Double(value)) = get_arg(args, 0) {
        non_failing_some(Value::Long(value as i64))
    } else {
        Err(VmError::ValidationError("Expected double".to_string()))
    }
}

/// `Double.longBitsToDouble`: the double whose bits are the long argument.
pub fn delegate_long_bits_to_double(args: &Vec<Value>) -> (r: NativeResult)
    ensures
        match arg(args@, 0) {
            Some(Value::Long(bits)) => r == Ok::<Option<Value>, VmError>(Some(Value::Double(bits as u64))),
            _ => r matches Err(VmError::ValidationError(_)),
        },
{
    if let Some(Value::Long(value)) = get_arg(args, 0) {
        non_failing_some(Value::Double(value as u64))
    } else {
        Err(VmError::ValidationError("Expected long".to_string()))
    }
}

} // verus!
