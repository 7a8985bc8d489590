use std::collections::BTreeSet;
use std::task::Waker;

use waitable::{
    cabi_wake, CancelStep, DropStep, PollStep, Release, TaskCall, TaskEntry, WaitableOp,
    WaitableOperation, WakeStep,
};

const PTR: usize = 0x200;

/// An operation whose status codes are the waitable to wait on next, or a
/// result of at least `RESULT`.
struct Hop {
    cancel_code: u32,
}

const RESULT: u32 = 1000;

impl WaitableOp for Hop {
    type Start = u32;
    type InProgress = u32;
    type Result = u32;
    type Cancel = u32;

    fn start(&mut self, state: u32) -> (u32, u32) {
        (state, 0)
    }

    fn in_progress_update(&mut self, _state: u32, code: u32) -> Result<u32, u32> {
        if code >= RESULT {
            Ok(code)
        } else {
            Err(code)
        }
    }

    fn start_cancelled(&mut self, _state: u32) -> u32 {
        0
    }

    fn in_progress_waitable(&mut self, state: &u32) -> u32 {
        *state
    }

    fn in_progress_cancel(&mut self, _state: &mut u32) -> u32 {
        self.cancel_code
    }

    fn result_into_cancel(&mut self, result: u32) -> u32 {
        result
    }
}

fn make(registered: &mut BTreeSet<u32>, call: TaskCall) {
    assert_eq!(call.callback_ptr, PTR);
    match call.entry {
        TaskEntry::WaitableRegister => {
            registered.insert(call.waitable);
        }
        TaskEntry::WaitableUnregister => {
            assert!(registered.remove(&call.waitable));
        }
    }
}

fn polled<T>(registered: &mut BTreeSet<u32>, step: PollStep<T>) -> Option<T> {
    match step {
        PollStep::Ready(result) => Some(result),
        PollStep::Pending(call) => {
            make(registered, call);
            None
        }
    }
}

fn report(
    registered: &mut BTreeSet<u32>,
    operation: &mut WaitableOperation<Hop>,
    waitable: u32,
    code: u32,
) -> WakeStep {
    assert!(registered.remove(&waitable));
    cabi_wake(operation.inner_mut(), PTR, code)
}

fn waker() -> Waker {
    Waker::noop().clone()
}

#[test]
fn registrations_match_what_is_awaited() {
    let mut registered = BTreeSet::new();
    let mut operation = WaitableOperation::new(Hop { cancel_code: RESULT }, 3);
    assert_eq!(polled(&mut registered, operation.poll_complete(PTR, waker())), None);
    assert_eq!(registered, BTreeSet::from([3]));
    assert_eq!(polled(&mut registered, operation.poll_complete(PTR, waker())), None);
    assert_eq!(registered, BTreeSet::from([3]));
    report(&mut registered, &mut operation, 3, 4);
    assert!(registered.is_empty());
    assert_eq!(polled(&mut registered, operation.poll_complete(PTR, waker())), None);
    assert_eq!(registered, BTreeSet::from([4]));
    report(&mut registered, &mut operation, 4, RESULT + 1);
    let result = polled(&mut registered, operation.poll_complete(PTR, waker()));
    assert_eq!(result, Some(RESULT + 1));
    assert!(registered.is_empty());
    assert!(matches!(operation.drop(PTR), DropStep::Released(Release::Free)));
}

#[test]
fn a_cancelled_operation_is_not_registered() {
    let mut registered = BTreeSet::new();
    let mut operation = WaitableOperation::new(Hop { cancel_code: RESULT }, 3);
    polled(&mut registered, operation.poll_complete(PTR, waker()));
    match operation.cancel(PTR) {
        CancelStep::Unregister(call) => make(&mut registered, call),
        CancelStep::Cancelled(_) => panic!("cancelled"),
    }
    assert!(registered.is_empty());
    assert_eq!(operation.finish_cancel(), RESULT);
    assert!(matches!(operation.drop(PTR), DropStep::Released(Release::Free)));
}

#[test]
fn a_detached_operation_is_registered_until_it_is_freed() {
    let mut registered = BTreeSet::new();
    let mut operation = WaitableOperation::new(Hop { cancel_code: RESULT }, 3);
    polled(&mut registered, operation.poll_complete(PTR, waker()));
    assert!(matches!(operation.detach(PTR), Release::Waiting));
    assert_eq!(registered, BTreeSet::from([3]));
    match report(&mut registered, &mut operation, 3, 5) {
        WakeStep::Detached(Release::Register(call)) => make(&mut registered, call),
        _ => panic!("not registered again"),
    }
    assert_eq!(registered, BTreeSet::from([5]));
    let step = report(&mut registered, &mut operation, 5, RESULT);
    assert!(matches!(step, WakeStep::Detached(Release::Free)));
    assert!(registered.is_empty());
}

#[test]
fn a_pending_cancellation_stays_registered() {
    let mut registered = BTreeSet::new();
    let mut operation = WaitableOperation::new(Hop { cancel_code: 3 }, 3);
    polled(&mut registered, operation.poll_complete(PTR, waker()));
    assert_eq!(polled(&mut registered, operation.poll_cancel(PTR, waker())), None);
    assert_eq!(registered, BTreeSet::from([3]));
    report(&mut registered, &mut operation, 3, RESULT);
    assert_eq!(polled(&mut registered, operation.poll_cancel(PTR, waker())), Some(RESULT));
    assert!(registered.is_empty());
}

#[test]
fn a_cancellation_that_completes_at_once_strands_a_registration() {
    let mut registered = BTreeSet::new();
    let mut operation = WaitableOperation::new(Hop { cancel_code: RESULT }, 3);
    polled(&mut registered, operation.poll_complete(PTR, waker()));
    assert_eq!(polled(&mut registered, operation.poll_cancel(PTR, waker())), Some(RESULT));
    assert!(operation.is_done());
    assert_eq!(registered, BTreeSet::from([3]));
}
