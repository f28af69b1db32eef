use vstd::prelude::*;

use crate::vm::class_path_entry::ClassLoadingError;

verus! {

/// Why reading a class file, or something it refers to, failed.
#[derive(Debug, Clone, PartialEq)]
pub enum ClassParseError {
    /// The bytes ended before the item being read was complete.
    ReadError,
    /// A referenced class or member could not be resolved.
    ResolveError(String),
    /// Loading the bytes of a class failed.
    LoadingError(ClassLoadingError),
}

/// A class path entry named something that is not an existing directory.
#[derive(Debug, Clone, PartialEq)]
pub struct InvalidDirectoryError {
    pub path: String,
}

} // verus!
