use vstd::prelude::*;

use crate::error::InvalidDirectoryError;
use crate::vm::strings::{dots_to_slashes, replace_dots};

verus! {

/// Why the bytes of a class could not be loaded.
#[derive(Debug, Clone, PartialEq)]
pub enum ClassLoadingError {
    IOError(String),
    ZipError(String),
}

/// Error returned if searching a class inside a jar fails.
#[derive(Debug, Clone, PartialEq)]
pub enum JarFileError {
    /// The jar file does not exist.
    NotFound(String),
    /// Generic I/O error reading the file.
    ReadingError(String),
    /// The file is not actually a valid jar.
    InvalidJar(String),
}

/// A class path entry that is a directory of class files.
#[derive(Debug)]
pub struct FileSystemClassPathEntry {
    pub file_dir: String,
}

impl FileSystemClassPathEntry {
    /// An entry for the directory `path`; `is_dir` tells whether `path` names an
    /// existing directory, which is refused otherwise.
    pub fn new(path: &str, is_dir: bool) -> (r: Result<Self, InvalidDirectoryError>)
        ensures
            is_dir ==> (r matches Ok(e) && e.file_dir@ == path@),
            !is_dir ==> (r matches Err(e) && e.path@ == path@),
    {
        if !is_dir {
            Err(InvalidDirectoryError { path: path.to_owned() })
        } else {
            Ok(FileSystemClassPathEntry { file_dir: path.to_owned() })
        }
    }
}

/// The path, relative to a class path entry, of the file of the class `name`: the dots
/// of the name become `/`, and `.class` is appended.
pub open spec fn spec_class_file_name(name: Seq<char>) -> Seq<char> {
    dots_to_slashes(name) + seq!['.', 'c', 'l', 'a', 's', 's']
}

/// The path, relative to a class path entry, of the file of the class `class_name`.
pub fn class_file_name(class_name: &str) -> (r: String)
    ensures
        r@ == spec_class_file_name(class_name@),
{
    let mut r = replace_dots(class_name);
    r.append(".class");
    proof {
        reveal_strlit(".class");
    }
    r
}

} // verus!
