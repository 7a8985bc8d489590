use waitable::{HostAction, Task, TaskCall, TaskEntry, TaskFault, WASIP3_TASK_V1};

fn task(version: u32) -> Task {
    Task { ptr: 0x4000, version }
}

#[test]
fn register_goes_through_its_stages() {
    let call = TaskCall::register_raw(0x100, 7);
    assert_eq!(call.entry, TaskEntry::WaitableRegister);
    assert_eq!(call.action(), HostAction::SetTask(None));
    let entry = call.task_taken(Some(task(1))).unwrap();
    assert_eq!(
        entry.action(),
        HostAction::WaitableRegister { task: task(1), waitable: 7, callback_ptr: 0x100 }
    );
    let restore = entry.entry_returned(None).unwrap();
    assert_eq!(restore.action(), HostAction::SetTask(Some(task(1))));
}

#[test]
fn unregister_goes_through_its_stages() {
    let call = TaskCall::unregister_raw(0x100, 7);
    assert_eq!(call.entry, TaskEntry::WaitableUnregister);
    assert_eq!(call.action(), HostAction::SetTask(None));
    let entry = call.task_taken(Some(task(3))).unwrap();
    assert_eq!(
        entry.action(),
        HostAction::WaitableUnregister { task: task(3), waitable: 7 }
    );
    let restore = entry.entry_returned(Some(0x100)).unwrap();
    assert_eq!(restore.action(), HostAction::SetTask(Some(task(3))));
}

#[test]
fn a_task_is_needed() {
    let call = TaskCall::register_raw(0x100, 7);
    assert_eq!(call.task_taken(None), Err(TaskFault::NoTask));
}

#[test]
fn the_task_has_to_be_recent() {
    assert_eq!(WASIP3_TASK_V1, 1);
    let call = TaskCall::register_raw(0x100, 7);
    assert_eq!(call.task_taken(Some(task(0))), Err(TaskFault::UnsupportedVersion));
    assert!(call.task_taken(Some(task(1))).is_ok());
    assert!(call.task_taken(Some(task(u32::MAX))).is_ok());
}

#[test]
fn only_the_own_callback_may_be_registered_already() {
    for call in [TaskCall::register_raw(0x100, 7), TaskCall::unregister_raw(0x100, 7)] {
        let entry = call.task_taken(Some(task(1))).unwrap();
        assert!(entry.entry_returned(None).is_ok());
        assert!(entry.entry_returned(Some(0x100)).is_ok());
        assert_eq!(entry.entry_returned(Some(0x101)), Err(TaskFault::ForeignCallback));
    }
}

#[test]
fn the_slot_is_empty_during_the_entry_and_restored_after_it() {
    let mut slot = Some(task(2));
    let call = TaskCall::register_raw(0x100, 7);
    let taken = slot;
    if let HostAction::SetTask(next) = call.action() {
        slot = next;
    }
    let entry = call.task_taken(taken).unwrap();
    assert!(matches!(entry.action(), HostAction::WaitableRegister { .. }));
    assert_eq!(slot, None);
    let restore = entry.entry_returned(None).unwrap();
    if let HostAction::SetTask(next) = restore.action() {
        slot = next;
    }
    assert_eq!(slot, Some(task(2)));
}
