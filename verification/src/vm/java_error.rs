use vstd::prelude::*;

verus! {

/// An exception raised on behalf of the running Java program.
#[derive(Debug, Clone, PartialEq)]
pub enum JavaError {
    ClassNotFoundException(String),
    MethodNotFoundException(String),
    JavaExceptionThrown(String, String),
    IOException(String),
    NullPointerException(String),
}

} // verus!
