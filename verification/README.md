# rjvm

The core of a small Java virtual machine, written in Verus: the executable Rust of each
function comes with a `requires`/`ensures` contract that Verus proves.

`src/` is the verified library:

- class file pieces: access flags, big-endian reads, class file versions, attributes,
  the constant pool and its lookups, field and method descriptors;
- bytecode: instruction decoding and the grouping of instructions into executable
  blocks (plain and fused);
- the machine: values and heap objects, classes (member lookup, field numbering,
  starting values, linking a class to its superclass), method resolution along
  superclasses and interfaces, the decisions of class initialization, the call stack,
  the interpreter step for one block, the invoke instructions (which method runs, with
  which receiver and arguments), the run loop's decisions after each step (returns,
  calls, class initialisers, exceptions and their handlers), the machine's state and
  its class table, creating objects and arrays, monitors, native memory
  for `sun.misc.Unsafe`, Java strings in modified UTF-8 and the objects that hold them,
  class path names, the report of a heap object's components for debugging;
- native methods of the class library that work on values, the heap and native memory
  (`Float`/`Double` bits, `System.arraycopy`, `sun.misc.Unsafe` field, element and
  memory access, `Class.isPrimitive`, reading from an open file), the table of every
  registered native method by class, name and descriptor, and its dispatch, which hands
  the natives that need the machine back to it.

Laws that span several operations are public `proof fn`s whose names start with `law_`.

What the library leaves to the machine around it, and why:

- reading a class file into its parts: the parser is not part of this code base, so
  linking starts from the parsed pieces;
- the work around the machine's state: loading class files from the class path,
  running class initialisers and native methods that need threads, files, the clock or
  reflection, the allocator that hands out object identities, and the JNI, whose
  functions in this code base are unimplemented stubs. The interpreter step hands an
  instruction that needs one of these back to the machine, and the decisions the
  machine then takes (planning an invoke, taking its arguments, dispatching on the
  receiver, creating an object or array, a read from a file, what follows a step) are
  functions here.

`app/` is a command-line program around the library: it builds a class path from
directories and jar files and loads class bytes from it, and renders a heap object's
report as text. `tests/` exercises the library on concrete values.
