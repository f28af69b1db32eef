use vstd::prelude::*;

verus! {

/// An attribute kept as its name and raw bytes.
#[derive(Debug, Clone, PartialEq)]
pub struct Attribute {
    pub name: String,
    pub info: Vec<u8>,
}

/// A `ConstantValue` attribute: the constant-pool index of a field's initial value.
#[derive(Debug, Clone, Copy, PartialEq, Eq, Structural)]
pub struct ConstantValue {
    pub constant_index: u16,
}

/// A `Code` attribute: a method's bytecode and what belongs to it.
#[derive(Debug, Clone)]
pub struct Code {
    pub max_stack: u16,
    pub max_locals: u16,
    pub code: Vec<u8>,
    pub attributes: Vec<Attribute>,
    pub line_number_table: Option<LineNumberTable>,
    pub exception_table: ExceptionTable,
}

/// A `LineNumberTable` attribute.
#[derive(Debug, PartialEq, Clone)]
pub struct LineNumberTable(pub Vec<LineNumberTableEntry>);

/// One row of a line number table: where a source line starts in the code.
#[derive(Debug, PartialEq, Clone)]
pub struct LineNumberTableEntry {
    pub program_counter: ProgramCounter,
    pub line_number: LineNumber,
}

impl LineNumberTableEntry {
    pub fn new(program_counter: ProgramCounter, line_number: LineNumber) -> (r: Self)
        ensures
            r.program_counter == program_counter,
            r.line_number == line_number,
    {
        Self { program_counter, line_number }
    }
}

/// A position in a method's code.
#[derive(Debug, PartialEq, Eq, Structural, Clone, Copy)]
pub struct ProgramCounter(pub u16);

/// A line of the source file.
#[derive(Debug, PartialEq, Eq, Structural, Clone, Copy)]
pub struct LineNumber(pub u16);

/// A `RuntimeVisibleAnnotations` attribute.
#[derive(Debug, PartialEq)]
pub struct VisibleRuntimeAnnotations(pub Vec<Annotation>);

/// An annotation: the annotation type's name and its element-value pairs.
#[derive(Debug, PartialEq)]
pub struct Annotation {
    pub name: String,
    pub values: Vec<ElementValuePair>,
}

/// An element name and its value.
#[derive(Debug, PartialEq)]
pub struct ElementValuePair(pub String, pub ElementValue);

/// The value of an annotation element.
#[derive(Debug, PartialEq)]
pub enum ElementValue {
    Primitive(u16),
    String(String),
    Enum(String, String),
    Class(String),
    Annotation(Annotation),
    Array(Vec<ElementValue>),
}

/// One exception handler of a method: the code range it covers, where it starts, and the
/// class it catches (any exception when absent).
#[derive(Debug, PartialEq, Clone)]
pub struct ExceptionTableEntry {
    pub start_pc: ProgramCounter,
    pub end_pc: ProgramCounter,
    pub handler_pc: ProgramCounter,
    pub catch_type: Option<String>,
}

impl ExceptionTableEntry {
    /// A copy of this entry.
    pub fn duplicate(&self) -> (r: Self)
        ensures
            r == *self,
    {
        ExceptionTableEntry {
            start_pc: self.start_pc,
            end_pc: self.end_pc,
            handler_pc: self.handler_pc,
            catch_type: match &self.catch_type {
                Some(name) => Some(name.clone()),
                None => None,
            },
        }
    }
}

/// The exception handlers of a method, in the order they are tried.
#[derive(Debug, PartialEq, Clone)]
pub struct ExceptionTable(pub Vec<ExceptionTableEntry>);

impl ExceptionTable {
    /// A copy of this table.
    pub fn duplicate(&self) -> (r: Self)
        ensures
            r.0@ == self.0@,
    {
        let mut entries: Vec<ExceptionTableEntry> = Vec::new();
        let mut i: usize = 0;
        while i < self.0.len()
            invariant
                i <= self.0@.len(),
                entries@ == self.0@.take(i as int),
            decreases self.0@.len() - i,
        {
            entries.push(self.0[i].duplicate());
            i = i + 1;
            assert(entries@ =~= self.0@.take(i as int));
        }
        assert(self.0@.take(self.0@.len() as int) =~= self.0@);
        ExceptionTable(entries)
    }
}

/// An `Exceptions` attribute: the classes a method declares it throws.
#[derive(Debug, PartialEq, Clone)]
pub struct Exceptions(pub Vec<String>);

} // verus!
