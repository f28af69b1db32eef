//! The decisions of class initialization. Before a class is first used, it and the
//! classes it needs are initialized: a class with static fields gets a static object,
//! and its static initializer `<clinit>()V`, where it has one, runs on it. Running the
//! initializers is the machine's work; what is decided here is which class takes what.
use vstd::prelude::*;

use crate::vm::class::{method_matches, same_text, Class};
use crate::vm::resolution::{first_method, lemma_first_method};

verus! {

/// Where a class stands in loading and initialization.
#[derive(Debug, PartialEq, Eq, Structural, Clone, Copy)]
pub enum ClassLoadingState {
    Loaded,
    Initializing,
    Initialized,
}

/// What initializing one class takes.
#[derive(Debug, PartialEq, Eq, Structural, Clone, Copy)]
pub enum InitStep {
    /// Nothing: the class has no static fields, or is an array class. It is initialized
    /// at once.
    Done,
    /// A static object for the static fields; there is no static initializer, so the
    /// class is initialized at once.
    StaticObjectOnly,
    /// A static object, and the static initializer at this position of the class's method
    /// table run on it. The class stays `Initializing` until the initializer returns.
    RunInitializer(usize),
}

/// What initializing the class `c` takes.
pub open spec fn spec_init_step<'a>(c: Class<'a>) -> InitStep {
    if c.transitive_field_count > 0 && !(c.name@.len() > 0 && c.name@[0] == '[') {
        match first_method(c.methods@, "<clinit>"@, "()V"@) {
            Some(i) => InitStep::RunInitializer(i as usize),
            None => InitStep::StaticObjectOnly,
        }
    } else {
        InitStep::Done
    }
}

/// The state a class is left in by its initialization step.
pub open spec fn state_after(step: InitStep) -> ClassLoadingState {
    match step {
        InitStep::RunInitializer(_) => ClassLoadingState::Initializing,
        _ => ClassLoadingState::Initialized,
    }
}

/// The number of static initializers that `steps` run.
pub open spec fn initializer_count(steps: Seq<InitStep>) -> nat
    decreases steps.len(),
{
    if steps.len() == 0 {
        0
    } else {
        initializer_count(steps.drop_last()) + if steps.last() is RunInitializer {
            1nat
        } else {
            0nat
        }
    }
}

/// What initializing `class` takes: a class with static fields that is no array class
/// gets a static object, and its `<clinit>()V`, the first one, runs on it where it has
/// one.
pub fn init_class(class: &Class) -> (r: InitStep)
    ensures
        r == spec_init_step(*class),
{
    if class.transitive_field_count > 0 && !class.is_array() {
        let mut i: usize = 0;
        while i < class.methods.len()
            invariant
                class.transitive_field_count > 0,
                !(class.name@.len() > 0 && class.name@[0] == '['),
                i <= class.methods@.len(),
                forall|j: int|
                    0 <= j < i ==> !method_matches(#[trigger] class.methods@[j], "<clinit>"@, "()V"@),
            decreases class.methods@.len() - i,
        {
            let m = &class.methods[i];
            if same_text(m.name.as_str(), "<clinit>") && m.descriptor.matches("()V") {
                proof {
                    lemma_first_method(class.methods@, "<clinit>"@, "()V"@, i as int);
                }
                return InitStep::RunInitializer(i);
            }
            i = i + 1;
        }
        InitStep::StaticObjectOnly
    } else {
        InitStep::Done
    }
}

/// What making a class initialized takes.
pub struct InitPlan {
    /// For each class to initialize, in order, its initialization step.
    pub steps: Vec<InitStep>,
    /// For each class to initialize, in order, the state its step leaves it in.
    pub states: Vec<ClassLoadingState>,
    /// The number of static initializers that run. When it is not 0, the caller is
    /// interrupted until they have returned.
    pub initializers: usize,
}

/// Makes the class whose state is `state` initialized, given the classes that its
/// initialization takes (`to_initialize`, itself and the classes it needs that are not
/// initialized yet, in order). An initialized class takes nothing. Otherwise each class
/// to initialize is marked `Initializing` and takes its step (see [`init_class`]), which
/// leaves it in the state [`state_after`] that step.
pub fn ensure_initialized(state: ClassLoadingState, to_initialize: &Vec<&Class>) -> (r: InitPlan)
    ensures
        state == ClassLoadingState::Initialized ==> r.steps@.len() == 0 && r.states@.len() == 0 && r.initializers
            == 0,
        state != ClassLoadingState::Initialized ==> {
            &&& r.steps@.len() == to_initialize@.len()
            &&& forall|i: int| 0 <= i < to_initialize@.len() ==> #[trigger] r.steps@[i] == spec_init_step(
                *to_initialize@[i],
            )
            &&& r.states@.len() == to_initialize@.len()
            &&& forall|i: int| 0 <= i < to_initialize@.len() ==> #[trigger] r.states@[i] == state_after(r.steps@[i])
            &&& r.initializers == initializer_count(r.steps@)
        },
{
    let mut steps: Vec<InitStep> = Vec::new();
    let mut states: Vec<ClassLoadingState> = Vec::new();
    if state == ClassLoadingState::Initialized {
        return InitPlan { steps, states, initializers: 0 };
    }
    let mut initializers: usize = 0;
    let mut i: usize = 0;
    while i < to_initialize.len()
        invariant
            i <= to_initialize@.len(),
            steps@.len() == i,
            states@.len() == i,
            forall|j: int| 0 <= j < i ==> #[trigger] steps@[j] == spec_init_step(*to_initialize@[j]),
            forall|j: int| 0 <= j < i ==> #[trigger] states@[j] == state_after(steps@[j]),
            initializers == initializer_count(steps@),
            initializers <= i,
        decreases to_initialize@.len() - i,
    {
        let step = init_class(to_initialize[i]);
        let ghost before = steps@;
        steps.push(step);
        proof {
            assert(steps@.drop_last() =~= before);
        }
        if let InitStep::RunInitializer(_) = step {
            initializers = initializers + 1;
            states.push(ClassLoadingState::Initializing);
        } else {
            states.push(ClassLoadingState::Initialized);
        }
        i = i + 1;
    }
    InitPlan { steps, states, initializers }
}

} // verus!
