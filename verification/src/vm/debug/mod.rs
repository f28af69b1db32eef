pub mod exceptions;
pub mod printable;
