use vstd::prelude::*;

use crate::attribute::{ExceptionTable, ExceptionTableEntry, ProgramCounter};
use crate::method_info::MethodInfo;
use crate::vm::class::{method_matches, same_text, Class, ClassAndMethod, ClassId};
use crate::vm::java_error::JavaError;
use crate::vm::VmError;

verus! {

/// The position of the first method of `methods` named `name` with the descriptor
/// `descriptor`, if any.
pub open spec fn first_method(methods: Seq<MethodInfo>, name: Seq<char>, descriptor: Seq<char>) -> Option<int> {
    if exists|i: int| 0 <= i < methods.len() && method_matches(#[trigger] methods[i], name, descriptor) {
        Some(
            choose|i: int|
                0 <= i < methods.len() && method_matches(#[trigger] methods[i], name, descriptor)
                    && forall|j: int| 0 <= j < i ==> !method_matches(#[trigger] methods[j], name, descriptor),
        )
    } else {
        None
    }
}

/// The first method that matches is the one `first_method` names.
pub proof fn lemma_first_method(methods: Seq<MethodInfo>, name: Seq<char>, descriptor: Seq<char>, i: int)
    requires
        0 <= i < methods.len(),
        method_matches(methods[i], name, descriptor),
        forall|j: int| 0 <= j < i ==> !method_matches(#[trigger] methods[j], name, descriptor),
    ensures
        first_method(methods, name, descriptor) == Some(i),
{
    let k = choose|k: int|
        0 <= k < methods.len() && method_matches(#[trigger] methods[k], name, descriptor)
            && forall|j: int| 0 <= j < k ==> !method_matches(#[trigger] methods[j], name, descriptor);
    if k < i {
        assert(!method_matches(methods[k], name, descriptor));
    }
    if i < k {
        assert(!method_matches(methods[i], name, descriptor));
    }
}

/// The method of `c` named `name` with the descriptor `descriptor`, the first one.
pub open spec fn own_method<'a>(c: Class<'a>, name: Seq<char>, descriptor: Seq<char>) -> Option<MethodInfo> {
    match first_method(c.methods@, name, descriptor) {
        Some(i) => Some(c.methods@[i]),
        None => None,
    }
}

/// How far the superclass and first-interface links lead up from `c`.
pub open spec fn height<'a>(c: Class<'a>) -> nat
    decreases c,
{
    let up = match c.superclass {
        Some(s) => height(*s),
        None => 0,
    };
    let side = if c.interfaces@.len() > 0 {
        proof {
            assert(decreases_to!(c => c.interfaces));
            assert(decreases_to!(c.interfaces => c.interfaces@));
            assert(decreases_to!(c.interfaces@ => c.interfaces@[0]));
        }
        height(*c.interfaces@[0])
    } else {
        0
    };
    1 + if up > side {
        up
    } else {
        side
    }
}

/// The root of the superclass chain above `c`.
pub open spec fn root<'a>(c: Class<'a>) -> Class<'a>
    decreases height(c),
{
    match c.superclass {
        Some(s) => root(*s),
        None => c,
    }
}

/// The first class, going up the superclass chain from `c`, that declares the method,
/// with the method.
pub open spec fn search_superclasses<'a>(c: Class<'a>, name: Seq<char>, descriptor: Seq<char>) -> Option<
    (Class<'a>, MethodInfo),
>
    decreases height(c),
{
    match own_method(c, name, descriptor) {
        Some(m) => Some((c, m)),
        None => match c.superclass {
            Some(s) => search_superclasses(*s, name, descriptor),
            None => None,
        },
    }
}

/// The first interface, going up the first-superinterface chain from `c`, that
/// declares the method, with the method.
pub open spec fn search_interfaces<'a>(c: Class<'a>, name: Seq<char>, descriptor: Seq<char>) -> Option<
    (Class<'a>, MethodInfo),
>
    decreases height(c),
{
    match own_method(c, name, descriptor) {
        Some(m) => Some((c, m)),
        None => if c.interfaces@.len() > 0 {
            search_interfaces(*c.interfaces@[0], name, descriptor)
        } else {
            None
        },
    }
}

/// True for the `clone` method of an array class, which the root class declares.
pub open spec fn is_array_clone<'a>(c: Class<'a>, name: Seq<char>) -> bool {
    c.name@.len() > 0 && c.name@[0] == '[' && name == "clone"@
}

/// The method that a virtual or special call of `name` with `descriptor` on `c` runs:
/// an array's `clone` is the root class's; an interface's method is searched along the
/// first superinterfaces, a class's along the superclasses.
pub open spec fn spec_method_virtual<'a>(c: Class<'a>, name: Seq<char>, descriptor: Seq<char>) -> Option<
    (Class<'a>, MethodInfo),
> {
    if is_array_clone(c, name) {
        Some((root(c), own_method(root(c), name, descriptor)->Some_0))
    } else if c.flags@.contains(crate::access_flags::ClassFlag::Interface) {
        search_interfaces(c, name, descriptor)
    } else {
        search_superclasses(c, name, descriptor)
    }
}

/// The method that an interface call of `name` with `descriptor` on `c` runs: searched
/// along the superclasses below the root class, then along the first superinterface of
/// the last class searched.
pub open spec fn spec_method_interface_virtual<'a>(c: Class<'a>, name: Seq<char>, descriptor: Seq<char>) -> Option<
    (Class<'a>, MethodInfo),
>
    decreases height(c),
{
    match own_method(c, name, descriptor) {
        Some(m) => Some((c, m)),
        None => match c.superclass {
            Some(s) => if s.superclass is Some {
                spec_method_interface_virtual(*s, name, descriptor)
            } else if c.interfaces@.len() > 0 {
                spec_method_interface_virtual(*c.interfaces@[0], name, descriptor)
            } else {
                None
            },
            None => None,
        },
    }
}

/// True when `e` reports that the method `name` with `descriptor` is missing from the
/// class named `class_name`.
pub open spec fn is_method_not_found(e: VmError, name: Seq<char>, descriptor: Seq<char>, class_name: Seq<char>) -> bool {
    e matches VmError::JavaException(JavaError::MethodNotFoundException(m)) && m@ == name
        + descriptor + " in "@ + class_name
}

fn method_not_found(name: &str, descriptor: &str, class_name: &str) -> (e: VmError)
    ensures
        is_method_not_found(e, name@, descriptor@, class_name@),
{
    let mut m = String::new();
    m.append(name);
    m.append(descriptor);
    m.append(" in ");
    m.append(class_name);
    proof {
        reveal_strlit(" in ");
    }
    assert(m@ =~= name@ + descriptor@ + " in "@ + class_name@);
    VmError::JavaException(JavaError::MethodNotFoundException(m))
}

/// The first method of `c` named `name` with `descriptor`, with its class.
fn find_own<'a>(c: &'a Class<'a>, name: &str, descriptor: &str) -> (r: Option<ClassAndMethod<'a>>)
    ensures
        match r {
            Some(cam) => *cam.class == *c && own_method(*c, name@, descriptor@) == Some(*cam.method),
            None => own_method(*c, name@, descriptor@) is None,
        },
{
    match c.find_method(name, descriptor) {
        Some(method) => {
            proof {
                let i = choose|i: int|
                    0 <= i < c.methods@.len() && c.methods@[i] == *method && method_matches(
                        c.methods@[i],
                        name@,
                        descriptor@,
                    ) && forall|j: int|
                        0 <= j < i ==> !method_matches(#[trigger] c.methods@[j], name@, descriptor@);
                lemma_first_method(c.methods@, name@, descriptor@, i);
            }
            Some(ClassAndMethod { class: c, method })
        },
        None => {
            proof {
                assert(!(exists|i: int|
                    0 <= i < c.methods@.len() && method_matches(#[trigger] c.methods@[i], name@, descriptor@)));
            }
            None
        },
    }
}

/// The method that a virtual or special call of `method_name` with `descriptor` on
/// `class` runs. The `clone` of an array class must exist in the root class, or the
/// lookup panics; that is left out by the precondition.
pub fn get_method_virtual<'a>(class: &'a Class<'a>, method_name: &str, descriptor: &str) -> (r: Result<
    ClassAndMethod<'a>,
    VmError,
>)
    requires
        is_array_clone(*class, method_name@) ==> own_method(root(*class), method_name@, descriptor@) is Some,
    ensures
        match r {
            Ok(cam) => spec_method_virtual(*class, method_name@, descriptor@) == Some(
                (*cam.class, *cam.method),
            ),
            Err(e) => spec_method_virtual(*class, method_name@, descriptor@) is None
                && is_method_not_found(e, method_name@, descriptor@, class.name@),
        },
{
    let mut current_class = class;
    if current_class.is_array() && same_text(method_name, "clone") {
        proof {
            reveal_strlit("clone");
        }
        while current_class.superclass.is_some()
            invariant
                root(*current_class) == root(*class),
            decreases height(*current_class),
        {
            if let Some(super_class) = current_class.superclass {
                current_class = super_class;
            }
        }
        return match find_own(current_class, method_name, descriptor) {
            Some(cam) => Ok(cam),
            None => {
                proof {
                    assert(false);
                }
                Err(method_not_found(method_name, descriptor, class.name.as_str()))
            },
        };
    }
    proof {
        reveal_strlit("clone");
    }
    if class.is_interface() {
        loop
            invariant
                !is_array_clone(*class, method_name@),
                class.flags@.contains(crate::access_flags::ClassFlag::Interface),
                search_interfaces(*current_class, method_name@, descriptor@) == search_interfaces(
                    *class,
                    method_name@,
                    descriptor@,
                ),
            decreases height(*current_class),
        {
            if let Some(cam) = find_own(current_class, method_name, descriptor) {
                return Ok(cam);
            }
            if current_class.interfaces.len() > 0 {
                current_class = current_class.interfaces[0];
            } else {
                return Err(method_not_found(method_name, descriptor, class.name.as_str()));
            }
        }
    } else {
        loop
            invariant
                !is_array_clone(*class, method_name@),
                !class.flags@.contains(crate::access_flags::ClassFlag::Interface),
                search_superclasses(*current_class, method_name@, descriptor@) == search_superclasses(
                    *class,
                    method_name@,
                    descriptor@,
                ),
            decreases height(*current_class),
        {
            if let Some(cam) = find_own(current_class, method_name, descriptor) {
                return Ok(cam);
            }
            if let Some(super_class) = current_class.superclass {
                current_class = super_class;
            } else {
                return Err(method_not_found(method_name, descriptor, class.name.as_str()));
            }
        }
    }
}

/// The method that an interface call of `method_name` with `descriptor` on `class`
/// runs.
pub fn get_method_interface_virtual<'a>(class: &'a Class<'a>, method_name: &str, descriptor: &str) -> (r: Result<
    ClassAndMethod<'a>,
    VmError,
>)
    ensures
        match r {
            Ok(cam) => spec_method_interface_virtual(*class, method_name@, descriptor@) == Some(
                (*cam.class, *cam.method),
            ),
            Err(e) => spec_method_interface_virtual(*class, method_name@, descriptor@) is None
                && is_method_not_found(e, method_name@, descriptor@, class.name@),
        },
{
    let mut current_class = class;
    loop
        invariant
            spec_method_interface_virtual(*current_class, method_name@, descriptor@)
                == spec_method_interface_virtual(*class, method_name@, descriptor@),
        decreases height(*current_class),
    {
        if let Some(cam) = find_own(current_class, method_name, descriptor) {
            return Ok(cam);
        }
        if let Some(super_class) = current_class.superclass {
            if super_class.superclass.is_some() {
                current_class = super_class;
            } else if current_class.interfaces.len() > 0 {
                current_class = current_class.interfaces[0];
            } else {
                return Err(method_not_found(method_name, descriptor, class.name.as_str()));
            }
        } else {
            return Err(method_not_found(method_name, descriptor, class.name.as_str()));
        }
    }
}

/// True when `c`, or one of its superclasses, is named `name`.
pub open spec fn spec_is_subclass_of<'a>(c: Class<'a>, name: Seq<char>) -> bool
    decreases height(c),
{
    c.name@ == name || match c.superclass {
        Some(s) => spec_is_subclass_of(*s, name),
        None => false,
    }
}

/// True when `class` is the class named `class_name` or one of its subclasses.
pub fn check_if_subclass_of<'a>(class: &'a Class<'a>, class_name: &str) -> (r: bool)
    ensures
        r == spec_is_subclass_of(*class, class_name@),
{
    let mut current_class = class;
    loop
        invariant
            spec_is_subclass_of(*current_class, class_name@) == spec_is_subclass_of(*class, class_name@),
        decreases height(*current_class),
    {
        if same_text(current_class.name.as_str(), class_name) {
            return true;
        }
        match current_class.superclass {
            Some(super_class) => {
                current_class = super_class;
            },
            None => {
                return false;
            },
        }
    }
}

/// True when the handler `e` catches an exception of the class `thrown` raised at the
/// code position `pc`: its range holds `pc` (both ends included) and it catches every
/// exception or a superclass of `thrown`.
pub open spec fn handler_applies<'a>(e: ExceptionTableEntry, pc: u16, thrown: Class<'a>) -> bool {
    &&& match e.catch_type {
        Some(name) => spec_is_subclass_of(thrown, name@),
        None => true,
    }
    &&& e.start_pc.0 <= pc <= e.end_pc.0
}

/// A class is a subclass of the class of its own name and of every class its superclass
/// is a subclass of; a class without a superclass is a subclass of its own name alone.
pub proof fn law_subclass_follows_superclasses<'a>(c: Class<'a>, name: Seq<char>)
    ensures
        spec_is_subclass_of(c, c.name@),
        c.superclass matches Some(s) && spec_is_subclass_of(*s, name) ==> spec_is_subclass_of(c, name),
        c.superclass is None ==> (spec_is_subclass_of(c, name) <==> name == c.name@),
{
}

/// An entry of an exception table catches only what is raised inside its range, from its
/// start to its end position, both included, and, where it names a class, only an
/// exception of that class or of one of its subclasses.
pub proof fn law_handler_needs_range<'a>(e: ExceptionTableEntry, pc: u16, thrown: Class<'a>)
    ensures
        pc < e.start_pc.0 ==> !handler_applies(e, pc, thrown),
        pc > e.end_pc.0 ==> !handler_applies(e, pc, thrown),
        e.catch_type matches Some(name) && !spec_is_subclass_of(thrown, name@) ==> !handler_applies(e, pc, thrown),
        e.catch_type is None && e.start_pc.0 <= pc <= e.end_pc.0 ==> handler_applies(e, pc, thrown),
{
}

/// Where the code goes on when an exception of the class `thrown` is raised at `pc`: the
/// start of the first handler of the table that catches it, if any.
pub fn try_resolve_exception_handler<'a>(exception_table: &ExceptionTable, pc: ProgramCounter, thrown: &'a Class<'a>) -> (r: Option<ProgramCounter>)
    ensures
        match r {
            Some(h) => exists|i: int|
                0 <= i < exception_table.0@.len() && handler_applies(exception_table.0@[i], pc.0, *thrown)
                    && exception_table.0@[i].handler_pc == h && forall|j: int|
                    0 <= j < i ==> !handler_applies(#[trigger] exception_table.0@[j], pc.0, *thrown),
            None => forall|i: int|
                0 <= i < exception_table.0@.len() ==> !handler_applies(#[trigger] exception_table.0@[i], pc.0, *thrown),
        },
        r matches Some(h) ==> exists|i: int|
            0 <= i < exception_table.0@.len() && #[trigger] exception_table.0@[i].handler_pc == h
                && exception_table.0@[i].start_pc.0 <= pc.0 <= exception_table.0@[i].end_pc.0
                && (exception_table.0@[i].catch_type matches Some(name) ==> spec_is_subclass_of(*thrown, name@)),
        (forall|i: int|
            0 <= i < exception_table.0@.len() ==> !(#[trigger] exception_table.0@[i].start_pc.0 <= pc.0
                <= exception_table.0@[i].end_pc.0)) ==> r is None,
{
    let mut i: usize = 0;
    while i < exception_table.0.len()
        invariant
            i <= exception_table.0@.len(),
            forall|j: int| 0 <= j < i ==> !handler_applies(#[trigger] exception_table.0@[j], pc.0, *thrown),
        decreases exception_table.0@.len() - i,
    {
        let handler = &exception_table.0[i];
        let can_handle = match &handler.catch_type {
            Some(class_name) => check_if_subclass_of(thrown, class_name.as_str()),
            None => true,
        };
        if can_handle {
            if handler.start_pc.0 <= pc.0 && pc.0 <= handler.end_pc.0 {
                return Some(handler.handler_pc);
            }
        }
        i = i + 1;
    }
    None
}


/// True when `target` is `c` or one of the classes and interfaces above it, through
/// superclasses and superinterfaces.
pub open spec fn spec_reaches<'a>(c: Class<'a>, target: ClassId) -> bool
    decreases c,
{
    c.id == target || (match c.superclass {
        Some(s) => spec_reaches(*s, target),
        None => false,
    }) || any_reaches(c.interfaces@, target)
}

/// True when `target` is reached from some class of `classes`.
pub open spec fn any_reaches<'a>(classes: Seq<&'a Class<'a>>, target: ClassId) -> bool
    decreases classes,
{
    if classes.len() == 0 {
        false
    } else {
        proof {
            assert(decreases_to!(classes => classes.drop_last()));
            assert(decreases_to!(classes => classes.last()));
        }
        any_reaches(classes.drop_last(), target) || spec_reaches(*classes.last(), target)
    }
}


proof fn lemma_any_reaches<'a>(classes: Seq<&'a Class<'a>>, target: ClassId, i: int)
    requires
        0 <= i < classes.len(),
        spec_reaches(*classes[i], target),
    ensures
        any_reaches(classes, target),
    decreases classes.len(),
{
    if i < classes.len() - 1 {
        lemma_any_reaches(classes.drop_last(), target, i);
    }
}

/// True when an object of `class` is an instance of `of_class`: `of_class` is `class` or
/// one of the classes and interfaces above it.
pub fn is_instance_of<'a>(class: &'a Class<'a>, of_class: &'a Class<'a>) -> (r: bool)
    ensures
        r == spec_reaches(*class, of_class.id),
    decreases *class,
{
    if class.id == of_class.id {
        return true;
    }
    if let Some(super_class) = class.superclass {
        if is_instance_of(super_class, of_class) {
            return true;
        }
    }
    let ghost interfaces = class.interfaces@;
    let mut i: usize = 0;
    while i < class.interfaces.len()
        invariant
            interfaces == class.interfaces@,
            i <= interfaces.len(),
            !any_reaches(interfaces.take(i as int), of_class.id),
        decreases interfaces.len() - i,
    {
        proof {
            assert(interfaces.take(i + 1).drop_last() =~= interfaces.take(i as int));
            assert(decreases_to!(*class => class.interfaces));
            assert(decreases_to!(class.interfaces => class.interfaces@));
            assert(decreases_to!(class.interfaces@ => class.interfaces@[i as int]));
        }
        let interface = class.interfaces[i];
        if is_instance_of(interface, of_class) {
            proof {
                lemma_any_reaches(interfaces, of_class.id, i as int);
            }
            return true;
        }
        i = i + 1;
    }
    assert(interfaces.take(interfaces.len() as int) =~= interfaces);
    false
}

} // verus!
