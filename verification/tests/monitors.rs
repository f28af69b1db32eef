use rjvm::vm::class::{ClassAndMethodId, ClassId};
use rjvm::vm::monitoring::{EnterOutcome, MonitorAssociate, MonitorHandler, MonitorState};
use rjvm::vm::value::RefId;
use rjvm::vm::VmError;

const T1: u64 = 1;
const T2: u64 = 2;
const T3: u64 = 3;

#[test]
fn first_enter_takes_an_unused_monitor() {
    let mut handler = MonitorHandler::new();
    assert!(!handler.holds_lock(T1, RefId(7)));
    assert_eq!(handler.enter_ref_or_block(T1, RefId(7)), EnterOutcome::Entered);
    assert!(handler.holds_lock(T1, RefId(7)));
    assert!(!handler.holds_lock(T2, RefId(7)));
}

#[test]
fn monitor_is_reentrant_and_needs_as_many_exits() {
    let mut handler = MonitorHandler::new();
    assert_eq!(handler.enter_ref_or_block(T1, RefId(7)), EnterOutcome::Entered);
    assert_eq!(handler.enter_ref_or_block(T1, RefId(7)), EnterOutcome::Entered);
    assert_eq!(handler.exit_ref(T1, RefId(7)), Ok(None));
    assert!(handler.holds_lock(T1, RefId(7)));
    assert_eq!(handler.exit_ref(T1, RefId(7)), Ok(None));
    assert!(!handler.holds_lock(T1, RefId(7)));
}

#[test]
fn other_thread_blocks_and_is_handed_the_monitor() {
    let mut handler = MonitorHandler::new();
    handler.enter_ref_or_block(T1, RefId(7));
    handler.enter_ref_or_block(T1, RefId(7));
    assert_eq!(handler.enter_ref_or_block(T2, RefId(7)), EnterOutcome::Blocked);
    assert_eq!(handler.enter_ref_or_block(T3, RefId(7)), EnterOutcome::Blocked);
    assert_eq!(handler.exit_ref(T1, RefId(7)), Ok(None));
    // the last exit hands the monitor to the thread that blocked first
    assert_eq!(handler.exit_ref(T1, RefId(7)), Ok(Some(T2)));
    assert!(handler.holds_lock(T2, RefId(7)));
    assert_eq!(handler.exit_ref(T2, RefId(7)), Ok(Some(T3)));
    assert_eq!(handler.exit_ref(T3, RefId(7)), Ok(None));
    assert!(!handler.holds_lock(T3, RefId(7)));
}

#[test]
fn exit_by_non_owner_is_refused() {
    let mut handler = MonitorHandler::new();
    assert!(matches!(handler.exit_ref(T1, RefId(7)), Err(VmError::ValidationError(_))));
    handler.enter_ref_or_block(T1, RefId(7));
    assert!(matches!(handler.exit_ref(T2, RefId(7)), Err(VmError::ValidationError(_))));
    assert!(handler.holds_lock(T1, RefId(7)));
}

#[test]
fn monitors_of_different_objects_are_independent() {
    let mut handler = MonitorHandler::new();
    assert_eq!(handler.enter_ref_or_block(T1, RefId(1)), EnterOutcome::Entered);
    assert_eq!(handler.enter_ref_or_block(T2, RefId(2)), EnterOutcome::Entered);
    let method = ClassAndMethodId { class_id: ClassId(4), method_index: 0 };
    assert_eq!(handler.enter_method_or_block(T3, method), EnterOutcome::Entered);
    assert_eq!(handler.enter_method_or_block(T1, method), EnterOutcome::Blocked);
    assert_eq!(handler.exit_method(T3, method), Ok(Some(T1)));
    assert!(handler.holds_lock(T1, RefId(1)));
    assert!(handler.holds_lock(T2, RefId(2)));
}

#[test]
fn wait_then_notify_then_exit_gives_the_monitor_back() {
    let mut handler = MonitorHandler::new();
    handler.enter_ref_or_block(T1, RefId(9));
    handler.enter_ref_or_block(T1, RefId(9));
    // T1 waits: nobody is blocked, so nobody is woken; its entry count is kept
    assert_eq!(handler.wait(T1, RefId(9)), (None, 2));
    assert!(!handler.holds_lock(T1, RefId(9)));
    assert_eq!(handler.enter_ref_or_block(T2, RefId(9)), EnterOutcome::Entered);
    assert_eq!(handler.notify(T2, RefId(9)), Ok(()));
    assert_eq!(handler.exit_ref(T2, RefId(9)), Ok(Some(T1)));
    assert!(handler.holds_lock(T1, RefId(9)));
    // T1 entered twice before it waited, so it leaves twice
    assert_eq!(handler.exit_ref(T1, RefId(9)), Ok(None));
    assert!(handler.holds_lock(T1, RefId(9)));
    assert_eq!(handler.exit_ref(T1, RefId(9)), Ok(None));
    assert!(!handler.holds_lock(T1, RefId(9)));
}

#[test]
fn wait_hands_the_monitor_to_a_blocked_thread() {
    let mut handler = MonitorHandler::new();
    handler.enter_ref_or_block(T1, RefId(9));
    assert_eq!(handler.enter_ref_or_block(T2, RefId(9)), EnterOutcome::Blocked);
    assert_eq!(handler.wait(T1, RefId(9)), (Some(T2), 1));
    assert!(handler.holds_lock(T2, RefId(9)));
}

#[test]
fn notify_all_wakes_waiters_in_order() {
    let mut handler = MonitorHandler::new();
    handler.enter_ref_or_block(T1, RefId(9));
    handler.wait(T1, RefId(9));
    handler.enter_ref_or_block(T2, RefId(9));
    handler.wait(T2, RefId(9));
    handler.enter_ref_or_block(T3, RefId(9));
    assert_eq!(handler.notify_all(T3, RefId(9)), Ok(()));
    assert_eq!(handler.exit_ref(T3, RefId(9)), Ok(Some(T1)));
    assert_eq!(handler.exit_ref(T1, RefId(9)), Ok(Some(T2)));
    assert_eq!(handler.exit_ref(T2, RefId(9)), Ok(None));
}

#[test]
fn notify_by_non_owner_is_refused() {
    let mut handler = MonitorHandler::new();
    handler.enter_ref_or_block(T1, RefId(9));
    assert!(matches!(handler.notify(T2, RefId(9)), Err(VmError::ValidationError(_))));
    assert!(matches!(handler.notify_all(T2, RefId(9)), Err(VmError::ValidationError(_))));
    // a first use creates the monitor on behalf of the caller, so notifying is allowed
    assert_eq!(handler.notify(T2, RefId(10)), Ok(()));
    assert!(handler.holds_lock(T2, RefId(10)));
}

#[test]
fn timed_out_waiter_asks_for_the_monitor_again() {
    let mut handler = MonitorHandler::new();
    handler.enter_ref_or_block(T1, RefId(9));
    handler.wait(T1, RefId(9));
    handler.enter_ref_or_block(T2, RefId(9));
    // T1's timeout runs out while T2 holds the monitor: T1 leaves the wait list and blocks
    assert_eq!(handler.resume_after_timeout(T1, RefId(9)), EnterOutcome::Blocked);
    // a notification now finds nobody waiting
    assert_eq!(handler.notify(T2, RefId(9)), Ok(()));
    assert_eq!(handler.exit_ref(T2, RefId(9)), Ok(Some(T1)));
    assert_eq!(handler.exit_ref(T1, RefId(9)), Ok(None));
}

#[test]
fn timed_out_waiter_takes_a_free_monitor() {
    let mut handler = MonitorHandler::new();
    handler.enter_ref_or_block(T1, RefId(9));
    handler.wait(T1, RefId(9));
    assert_eq!(handler.resume_after_timeout(T1, RefId(9)), EnterOutcome::Entered);
    assert!(handler.holds_lock(T1, RefId(9)));
}

#[test]
fn monitor_state_enter_and_exit() {
    let mut state = MonitorState::new(T1, MonitorAssociate::Ref(RefId(3)));
    assert!(state.is_owned_by(T1));
    assert_eq!(state.associate(), MonitorAssociate::Ref(RefId(3)));
    assert_eq!(state.enter(T1), EnterOutcome::Entered);
    assert_eq!(state.enter(T2), EnterOutcome::Blocked);
    assert_eq!(state.exit(T1), Ok(Some(T2)));
    assert!(state.is_owned_by(T2));
}
