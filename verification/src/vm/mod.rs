use vstd::prelude::*;

use crate::error::ClassParseError;
use crate::vm::java_error::JavaError;

pub mod allocation;
pub mod bytecode;
pub mod callstack;
pub mod class;
pub mod class_manager;
pub mod class_path;
pub mod class_path_entry;
pub mod debug;
pub mod executor;
pub mod heap;
pub mod initialization;
pub mod invoke;
pub mod java_error;
pub mod machine;
pub mod monitoring;
pub mod native;
pub mod resolution;
pub mod run_loop;
pub mod result;
pub mod strings;
pub mod unsafe_memory;
pub mod value;

verus! {

/// An error raised while the virtual machine loads or runs code.
#[derive(Debug, Clone, PartialEq)]
pub enum VmError {
    JavaException(JavaError),
    ParseError(ClassParseError),
    MethodCallError(String),
    ValidationError(String),
    /// Bytes that should hold Java's modified UTF-8 do not.
    CESU8Error,
    ClassNotLoadedError(String),
    Unspecified(String),
}

} // verus!
