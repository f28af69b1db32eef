use rjvm::access_flags::MethodFlag;
use rjvm::attribute::{Code, ExceptionTable};
use rjvm::constants::ConstantPool;
use rjvm::method_info::{MethodDescriptor, MethodInfo};
use rjvm::vm::class::{Class, ClassId};
use rjvm::vm::initialization::{ensure_initialized, init_class, ClassLoadingState, InitStep};

fn method(name: &str, descriptor: &str) -> MethodInfo {
    MethodInfo {
        flags: vec![MethodFlag::Static],
        name: name.to_string(),
        descriptor: MethodDescriptor::new(descriptor.to_string()),
        deprecated: false,
        code: Some(Code {
            max_stack: 1,
            max_locals: 0,
            code: vec![],
            attributes: vec![],
            line_number_table: None,
            exception_table: ExceptionTable(vec![]),
        }),
        exceptions: None,
        attributes: vec![],
    }
}

fn class(id: u32, name: &str, field_count: usize, methods: Vec<MethodInfo>) -> Class<'static> {
    Class {
        id: ClassId(id),
        name: name.to_string(),
        source_file: None,
        constants: ConstantPool(vec![]),
        flags: vec![],
        superclass: None,
        interfaces: vec![],
        fields: vec![],
        methods,
        transitive_field_count: field_count,
        first_field_index: 0,
        array_info: None,
    }
}

#[test]
fn each_class_takes_its_step() {
    let plain = class(1, "Plain", 0, vec![method("<clinit>", "()V")]);
    let array = class(2, "[I", 3, vec![method("<clinit>", "()V")]);
    let fields_only = class(3, "Fields", 2, vec![method("<clinit>", "(I)V"), method("run", "()V")]);
    let with_init = class(4, "WithInit", 1, vec![method("run", "()V"), method("<clinit>", "()V"), method("<clinit>", "()V")]);
    assert_eq!(init_class(&plain), InitStep::Done);
    assert_eq!(init_class(&array), InitStep::Done);
    assert_eq!(init_class(&fields_only), InitStep::StaticObjectOnly);
    assert_eq!(init_class(&with_init), InitStep::RunInitializer(1));
}

#[test]
fn initialization_counts_the_initializers_that_run() {
    let plain = class(1, "Plain", 0, vec![]);
    let fields_only = class(3, "Fields", 2, vec![]);
    let with_init = class(4, "WithInit", 1, vec![method("<clinit>", "()V")]);
    let other_init = class(5, "Other", 4, vec![method("<clinit>", "()V")]);
    let to_initialize = vec![&plain, &fields_only, &with_init, &other_init];
    let plan = ensure_initialized(ClassLoadingState::Loaded, &to_initialize);
    assert_eq!(
        plan.steps,
        vec![InitStep::Done, InitStep::StaticObjectOnly, InitStep::RunInitializer(0), InitStep::RunInitializer(0)]
    );
    assert_eq!(plan.initializers, 2);
    assert_eq!(
        plan.states,
        vec![
            ClassLoadingState::Initialized,
            ClassLoadingState::Initialized,
            ClassLoadingState::Initializing,
            ClassLoadingState::Initializing
        ]
    );
    let plan = ensure_initialized(ClassLoadingState::Initializing, &vec![&plain]);
    assert_eq!(plan.steps, vec![InitStep::Done]);
    assert_eq!(plan.initializers, 0);
    let plan = ensure_initialized(ClassLoadingState::Initialized, &to_initialize);
    assert!(plan.steps.is_empty());
    assert!(plan.states.is_empty());
    assert_eq!(plan.initializers, 0);
}
