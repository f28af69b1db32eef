//! The state of the virtual machine: its loaded classes, its call stacks, heap and native
//! memory, and the objects it keeps for classes and strings. Where a class's storage
//! lives is the caller's choice: the machine holds references to classes.
use vstd::prelude::*;

use crate::vm::callstack::{CallStack, FrameView};
use crate::vm::class::{Class, ClassId};
use crate::vm::heap::Heap;
use crate::vm::unsafe_memory::memory_chunk::CHUNK_BASE;
use crate::vm::unsafe_memory::{Unsafe, UNSAFE_CAPACITY};
use crate::vm::value::{RefId, ReferenceValue};

verus! {

/// The class registered last under the name `name` in `s`, if any: registering a class
/// again under a name replaces the earlier one.
pub open spec fn latest_named<'a>(s: Seq<&'a Class<'a>>, name: Seq<char>) -> Option<&'a Class<'a>>
    decreases s.len(),
{
    if s.len() == 0 {
        None
    } else if s.last().name@ == name {
        Some(s.last())
    } else {
        latest_named(s.drop_last(), name)
    }
}

/// The class registered last under the id `id` in `s`, if any.
pub open spec fn latest_with_id<'a>(s: Seq<&'a Class<'a>>, id: ClassId) -> Option<&'a Class<'a>>
    decreases s.len(),
{
    if s.len() == 0 {
        None
    } else if s.last().id == id {
        Some(s.last())
    } else {
        latest_with_id(s.drop_last(), id)
    }
}

/// The loaded classes, found by name and by id, and the id the next class gets.
pub struct ClassTable<'a> {
    by_name: Vec<&'a Class<'a>>,
    by_id: Vec<&'a Class<'a>>,
    next_id: u32,
}

impl<'a> ClassTable<'a> {
    /// The classes registered under their names, in the order of registration.
    pub closed spec fn named(&self) -> Seq<&'a Class<'a>> {
        self.by_name@
    }

    /// The classes registered under their ids, in the order of registration.
    pub closed spec fn numbered(&self) -> Seq<&'a Class<'a>> {
        self.by_id@
    }

    /// The id that the next loaded class gets.
    pub closed spec fn spec_next_id(&self) -> u32 {
        self.next_id
    }

    /// A table that knows the class `returner` by its id only, and gives the next class
    /// the id 0.
    pub fn new(returner: &'a Class<'a>) -> (r: Self)
        ensures
            r.named() == Seq::<&'a Class<'a>>::empty(),
            r.numbered() == seq![returner],
            r.spec_next_id() == 0,
    {
        let mut by_id: Vec<&'a Class<'a>> = Vec::new();
        by_id.push(returner);
        ClassTable { by_name: Vec::new(), by_id, next_id: 0 }
    }

    /// The class loaded under the name `class_name`, if any.
    pub fn find_class_by_name(&self, class_name: &str) -> (r: Option<&'a Class<'a>>)
        ensures
            r == latest_named(self.named(), class_name@),
    {
        let ghost s = self.by_name@;
        let mut i = self.by_name.len();
        assert(s.take(i as int) =~= s);
        while i > 0
            invariant
                s == self.by_name@,
                i <= s.len(),
                latest_named(s, class_name@) == latest_named(s.take(i as int), class_name@),
            decreases i,
        {
            let class = self.by_name[i - 1];
            proof {
                assert(s.take(i as int).last() == class);
                assert(s.take(i as int).drop_last() =~= s.take(i - 1));
            }
            if crate::vm::class::same_text(class.name.as_str(), class_name) {
                return Some(class);
            }
            i = i - 1;
        }
        assert(s.take(0) =~= Seq::<&'a Class<'a>>::empty());
        None
    }

    /// The class loaded under the id `id`, if any.
    pub fn find_class_by_id(&self, id: ClassId) -> (r: Option<&'a Class<'a>>)
        ensures
            r == latest_with_id(self.numbered(), id),
    {
        let ghost s = self.by_id@;
        let mut i = self.by_id.len();
        assert(s.take(i as int) =~= s);
        while i > 0
            invariant
                s == self.by_id@,
                i <= s.len(),
                latest_with_id(s, id) == latest_with_id(s.take(i as int), id),
            decreases i,
        {
            let class = self.by_id[i - 1];
            proof {
                assert(s.take(i as int).last() == class);
                assert(s.take(i as int).drop_last() =~= s.take(i - 1));
            }
            if class.id.0 == id.0 {
                return Some(class);
            }
            i = i - 1;
        }
        assert(s.take(0) =~= Seq::<&'a Class<'a>>::empty());
        None
    }

    /// Hands out the id for the next loaded class. Running out of ids overflows, so that
    /// is left out by the precondition.
    pub fn take_next_id(&mut self) -> (r: ClassId)
        requires
            old(self).spec_next_id() < u32::MAX,
        ensures
            r == ClassId(old(self).spec_next_id()),
            final(self).spec_next_id() == old(self).spec_next_id() + 1,
            final(self).named() == old(self).named(),
            final(self).numbered() == old(self).numbered(),
    {
        let id = self.next_id;
        self.next_id = self.next_id + 1;
        ClassId(id)
    }

    /// Registers the loaded class `class` under its name and its id, in place of any class
    /// registered under them before.
    pub fn register(&mut self, class: &'a Class<'a>)
        ensures
            final(self).named() == old(self).named().push(class),
            final(self).numbered() == old(self).numbered().push(class),
            final(self).spec_next_id() == old(self).spec_next_id(),
    {
        self.by_name.push(class);
        self.by_id.push(class);
    }
}

/// A registration replaces what was registered under the same name and id: a lookup by
/// either gives the class registered last, and other names and ids keep their classes.
pub proof fn law_lookup_after_register<'a>(s: Seq<&'a Class<'a>>, class: &'a Class<'a>, name: Seq<char>, id: ClassId)
    ensures
        latest_named(s.push(class), class.name@) == Some(class),
        latest_with_id(s.push(class), class.id) == Some(class),
        name != class.name@ ==> latest_named(s.push(class), name) == latest_named(s, name),
        id != class.id ==> latest_with_id(s.push(class), id) == latest_with_id(s, id),
{
    assert(s.push(class).drop_last() =~= s);
}

/// The virtual machine's state.
pub struct Machine<'a> {
    /// The loaded classes.
    pub classes: ClassTable<'a>,
    /// The invocations of the running thread.
    pub call_stack: CallStack<'a>,
    /// The invocations that initialise classes.
    pub init_call_stack: CallStack<'a>,
    /// The objects.
    pub heap: Heap,
    /// The native memory of `sun.misc.Unsafe`.
    pub memory: Unsafe,
    /// The object that holds the static fields of each initialised class.
    pub static_class_objects: Vec<(ClassId, RefId)>,
    /// The interned string objects, by their text.
    pub string_objects: Vec<(String, RefId)>,
    /// The `java.lang.Class` object of each class that has one.
    pub class_objects: Vec<(ClassId, RefId)>,
    /// The files that are open, with their content and read position.
    pub open_files: Vec<(String, Vec<u8>, usize)>,
    /// The object of the running thread, once there is one.
    pub current_thread: Option<RefId>,
}

impl<'a> Machine<'a> {
    /// A machine that knows only the class `returner` (see
    /// [`crate::vm::class_manager::returner_class`]), with empty call stacks, no objects,
    /// fresh native memory and no class, string or file objects yet.
    pub fn new(returner: &'a Class<'a>) -> (m: Self)
        ensures
            m.classes.named() == Seq::<&'a Class<'a>>::empty(),
            m.classes.numbered() == seq![returner],
            m.classes.spec_next_id() == 0,
            m.call_stack@ == Seq::<FrameView<'a>>::empty(),
            m.init_call_stack@ == Seq::<FrameView<'a>>::empty(),
            m.heap.wf(),
            m.heap@ == Map::<RefId, ReferenceValue>::empty(),
            m.memory.wf(),
            m.memory.chunk().used() == 0,
            m.memory.chunk().capacity() == UNSAFE_CAPACITY,
            m.memory.chunk().start() == CHUNK_BASE,
            m.static_class_objects@ == Seq::<(ClassId, RefId)>::empty(),
            m.string_objects@.len() == 0,
            m.class_objects@ == Seq::<(ClassId, RefId)>::empty(),
            m.open_files@.len() == 0,
            m.current_thread is None,
    {
        Machine {
            classes: ClassTable::new(returner),
            call_stack: CallStack::new(),
            init_call_stack: CallStack::new(),
            heap: Heap::new(),
            memory: Unsafe::new(),
            static_class_objects: Vec::new(),
            string_objects: Vec::new(),
            class_objects: Vec::new(),
            open_files: Vec::new(),
            current_thread: None,
        }
    }
}

} // verus!
