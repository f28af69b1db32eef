use vstd::prelude::*;

pub mod access_flags;
pub mod attribute;
pub mod bytecode;
pub mod bytes;
pub mod class_file_version;
pub mod constants;
pub mod error;
pub mod field_info;
pub mod method_info;
pub mod vm;

verus! {

} // verus!
