use std::cell::RefCell;
use std::rc::Rc;
use std::sync::atomic::{AtomicUsize, Ordering};
use std::sync::Arc;
use std::task::{Wake, Waker};

use waitable::{
    cabi_wake, CancelStep, DropStep, PollStep, Release, TaskCall, WaitableOp, WaitableOperation,
    WakeStep,
};

const PTR: usize = 0x100;

/// A status code that leaves an operation pending.
const BLOCKED: u32 = 0;

/// A status code that moves an operation to the next waitable.
const MOVED: u32 = 1;

type Log = Rc<RefCell<Vec<&'static str>>>;

/// An operation that waits on the waitable it was started with. Any status code
/// but the two above completes it.
struct Op {
    log: Log,
    start_code: u32,
    cancel_code: u32,
}

impl WaitableOp for Op {
    type Start = u32;
    type InProgress = u32;
    type Result = u32;
    type Cancel = String;

    fn start(&mut self, state: u32) -> (u32, u32) {
        self.log.borrow_mut().push("start");
        (self.start_code, state)
    }

    fn in_progress_update(&mut self, state: u32, code: u32) -> Result<u32, u32> {
        self.log.borrow_mut().push("update");
        match code {
            BLOCKED => Err(state),
            MOVED => Err(state + 1),
            _ => Ok(code),
        }
    }

    fn start_cancelled(&mut self, state: u32) -> String {
        self.log.borrow_mut().push("start_cancelled");
        format!("never started {state}")
    }

    fn in_progress_waitable(&mut self, state: &u32) -> u32 {
        *state
    }

    fn in_progress_cancel(&mut self, _state: &mut u32) -> u32 {
        self.log.borrow_mut().push("cancel");
        self.cancel_code
    }

    fn result_into_cancel(&mut self, result: u32) -> String {
        self.log.borrow_mut().push("into_cancel");
        format!("cancelled {result}")
    }
}

/// The same, but it may be detached.
struct Detachable(Op);

impl WaitableOp for Detachable {
    type Start = u32;
    type InProgress = u32;
    type Result = u32;
    type Cancel = String;

    fn start(&mut self, state: u32) -> (u32, u32) {
        self.0.start(state)
    }

    fn in_progress_update(&mut self, state: u32, code: u32) -> Result<u32, u32> {
        self.0.in_progress_update(state, code)
    }

    fn start_cancelled(&mut self, state: u32) -> String {
        self.0.start_cancelled(state)
    }

    fn in_progress_waitable(&mut self, state: &u32) -> u32 {
        self.0.in_progress_waitable(state)
    }

    fn in_progress_cancel(&mut self, state: &mut u32) -> u32 {
        self.0.in_progress_cancel(state)
    }

    fn result_into_cancel(&mut self, result: u32) -> String {
        self.0.result_into_cancel(result)
    }

    fn detach_on_drop() -> bool {
        true
    }
}

fn op(start_code: u32, cancel_code: u32) -> (Op, Log) {
    let log: Log = Rc::new(RefCell::new(Vec::new()));
    (Op { log: log.clone(), start_code, cancel_code }, log)
}

fn operation(start_code: u32, cancel_code: u32) -> (WaitableOperation<Op>, Log) {
    let (op, log) = op(start_code, cancel_code);
    (WaitableOperation::new(op, 7), log)
}

fn detachable(start_code: u32) -> (WaitableOperation<Detachable>, Log) {
    let (op, log) = op(start_code, 9);
    (WaitableOperation::new(Detachable(op), 7), log)
}

struct Counter(AtomicUsize);

impl Wake for Counter {
    fn wake(self: Arc<Self>) {
        self.0.fetch_add(1, Ordering::SeqCst);
    }
}

fn counter() -> (Arc<Counter>, Waker) {
    let counter = Arc::new(Counter(AtomicUsize::new(0)));
    (counter.clone(), Waker::from(counter))
}

fn waker() -> Waker {
    counter().1
}

fn count(counter: &Arc<Counter>) -> usize {
    counter.0.load(Ordering::SeqCst)
}

fn ready<T>(step: PollStep<T>) -> T {
    match step {
        PollStep::Ready(result) => result,
        PollStep::Pending(_) => panic!("pending"),
    }
}

fn pending<T>(step: PollStep<T>) -> TaskCall {
    match step {
        PollStep::Ready(_) => panic!("ready"),
        PollStep::Pending(call) => call,
    }
}

fn cancelled(step: CancelStep<String>) -> String {
    match step {
        CancelStep::Cancelled(cancel) => cancel,
        CancelStep::Unregister(_) => panic!("still registered"),
    }
}

fn wake<S: WaitableOp>(operation: &mut WaitableOperation<S>, code: u32) -> WakeStep {
    cabi_wake(operation.inner_mut(), PTR, code)
}

#[test]
fn a_new_operation_is_idle() {
    let (operation, log) = operation(BLOCKED, 9);
    assert!(!operation.is_done());
    assert!(!operation.is_cancelling());
    assert!(log.borrow().is_empty());
}

#[test]
fn a_poll_may_complete_at_once() {
    let (mut operation, log) = operation(5, 9);
    assert_eq!(ready(operation.poll_complete(PTR, waker())), 5);
    assert!(operation.is_done());
    assert_eq!(*log.borrow(), ["start", "update"]);
}

#[test]
fn a_pending_poll_registers() {
    let (mut operation, log) = operation(BLOCKED, 9);
    let call = pending(operation.poll_complete(PTR, waker()));
    assert_eq!(call, TaskCall::register_raw(PTR, 7));
    assert!(!operation.is_done());
    assert_eq!(*log.borrow(), ["start", "update"]);
}

#[test]
fn a_wake_reaches_the_owner_and_its_next_poll() {
    let (mut operation, log) = operation(BLOCKED, 9);
    let (count_wakes, waker1) = counter();
    pending(operation.poll_complete(PTR, waker1));
    match wake(&mut operation, 42) {
        WakeStep::Wake(Some(waker)) => waker.wake(),
        _ => panic!("no waker"),
    }
    assert_eq!(count(&count_wakes), 1);
    assert!(!operation.is_done());
    assert_eq!(ready(operation.poll_complete(PTR, waker())), 42);
    assert!(operation.is_done());
    assert_eq!(*log.borrow(), ["start", "update", "update"]);
}

#[test]
fn the_last_waker_is_woken() {
    let (mut operation, log) = operation(BLOCKED, 9);
    let (first_count, first) = counter();
    let (second_count, second) = counter();
    pending(operation.poll_complete(PTR, first));
    let call = pending(operation.poll_complete(PTR, second));
    assert_eq!(call, TaskCall::register_raw(PTR, 7));
    match wake(&mut operation, 42) {
        WakeStep::Wake(Some(waker)) => waker.wake(),
        _ => panic!("no waker"),
    }
    assert_eq!(count(&first_count), 0);
    assert_eq!(count(&second_count), 1);
    assert_eq!(*log.borrow(), ["start", "update"]);
}

#[test]
fn a_second_wake_finds_no_waker() {
    let (mut operation, _log) = operation(BLOCKED, 9);
    pending(operation.poll_complete(PTR, waker()));
    assert!(matches!(wake(&mut operation, 41), WakeStep::Wake(Some(_))));
    assert!(matches!(wake(&mut operation, 42), WakeStep::Wake(None)));
    assert_eq!(ready(operation.poll_complete(PTR, waker())), 42);
}

#[test]
fn a_code_may_move_the_operation_to_another_waitable() {
    let (mut operation, _log) = operation(BLOCKED, 9);
    pending(operation.poll_complete(PTR, waker()));
    wake(&mut operation, MOVED);
    let call = pending(operation.poll_complete(PTR, waker()));
    assert_eq!(call, TaskCall::register_raw(PTR, 8));
}

#[test]
fn wakers_are_registered_and_unregistered_by_hand() {
    let (mut operation, log) = operation(BLOCKED, 9);
    let call = operation.register_waker(11, PTR, waker());
    assert_eq!(call, TaskCall::register_raw(PTR, 11));
    assert_eq!(operation.unregister_waker(11, PTR), TaskCall::unregister_raw(PTR, 11));
    assert!(matches!(wake(&mut operation, 5), WakeStep::Wake(Some(_))));
    assert!(log.borrow().is_empty());
}

#[test]
fn a_code_before_the_start_does_not_hinder_a_start_that_completes() {
    let (mut operation, log) = operation(5, 9);
    operation.register_waker(11, PTR, waker());
    assert!(!operation.has_code());
    assert!(matches!(wake(&mut operation, 42), WakeStep::Wake(Some(_))));
    assert!(operation.has_code());
    assert_eq!(ready(operation.poll_complete(PTR, waker())), 5);
    assert!(operation.is_done());
    assert!(operation.has_code());
    assert_eq!(*log.borrow(), ["start", "update"]);
}

#[test]
fn a_poll_takes_the_code() {
    let (mut operation, _log) = operation(BLOCKED, 9);
    pending(operation.poll_complete(PTR, waker()));
    wake(&mut operation, BLOCKED);
    assert!(operation.has_code());
    pending(operation.poll_complete(PTR, waker()));
    assert!(!operation.has_code());
}

#[test]
fn cancel_before_the_start_never_starts() {
    let (mut operation, log) = operation(BLOCKED, 9);
    assert_eq!(cancelled(operation.cancel(PTR)), "never started 7");
    assert!(operation.is_done());
    assert_eq!(*log.borrow(), ["start_cancelled"]);
}

#[test]
fn cancel_unregisters_before_it_asks() {
    let (mut operation, log) = operation(BLOCKED, 9);
    pending(operation.poll_complete(PTR, waker()));
    match operation.cancel(PTR) {
        CancelStep::Unregister(call) => assert_eq!(call, TaskCall::unregister_raw(PTR, 7)),
        CancelStep::Cancelled(_) => panic!("cancelled"),
    }
    assert!(!operation.is_done());
    assert_eq!(*log.borrow(), ["start", "update"]);
    assert_eq!(operation.finish_cancel(), "cancelled 9");
    assert!(operation.is_done());
    assert_eq!(*log.borrow(), ["start", "update", "cancel", "update", "into_cancel"]);
}

#[test]
fn cancel_after_completion_hands_out_the_result() {
    let (mut operation, log) = operation(BLOCKED, 9);
    pending(operation.poll_complete(PTR, waker()));
    wake(&mut operation, 42);
    assert_eq!(cancelled(operation.cancel(PTR)), "cancelled 42");
    assert!(operation.is_done());
    assert_eq!(*log.borrow(), ["start", "update", "update", "into_cancel"]);
}

#[test]
fn cancel_after_a_code_that_completes_nothing_asks() {
    let (mut operation, log) = operation(BLOCKED, 9);
    pending(operation.poll_complete(PTR, waker()));
    wake(&mut operation, BLOCKED);
    assert_eq!(cancelled(operation.cancel(PTR)), "cancelled 9");
    assert!(operation.is_done());
    assert_eq!(*log.borrow(), ["start", "update", "update", "cancel", "update", "into_cancel"]);
}

#[test]
fn poll_cancel_before_the_start_never_starts() {
    let (mut operation, log) = operation(BLOCKED, 9);
    assert_eq!(ready(operation.poll_cancel(PTR, waker())), "never started 7");
    assert!(operation.is_done());
    assert!(!operation.is_cancelling());
    assert_eq!(*log.borrow(), ["start_cancelled"]);
}

#[test]
fn poll_cancel_may_complete_at_once() {
    let (mut operation, log) = operation(BLOCKED, 9);
    pending(operation.poll_complete(PTR, waker()));
    assert_eq!(ready(operation.poll_cancel(PTR, waker())), "cancelled 9");
    assert!(operation.is_done());
    assert!(operation.is_cancelling());
    assert_eq!(*log.borrow(), ["start", "update", "cancel", "update", "into_cancel"]);
}

#[test]
fn poll_cancel_after_completion_does_not_ask() {
    let (mut operation, log) = operation(BLOCKED, 9);
    pending(operation.poll_complete(PTR, waker()));
    wake(&mut operation, 42);
    assert_eq!(ready(operation.poll_cancel(PTR, waker())), "cancelled 42");
    assert!(!operation.is_cancelling());
    assert_eq!(*log.borrow(), ["start", "update", "update", "into_cancel"]);
}

#[test]
fn poll_cancel_asks_once_and_waits() {
    let (mut operation, log) = operation(BLOCKED, BLOCKED);
    pending(operation.poll_complete(PTR, waker()));
    let (cancel_count, cancel_waker) = counter();
    let call = pending(operation.poll_cancel(PTR, waker()));
    assert_eq!(call, TaskCall::register_raw(PTR, 7));
    assert!(operation.is_cancelling());
    let call = pending(operation.poll_cancel(PTR, cancel_waker));
    assert_eq!(call, TaskCall::register_raw(PTR, 7));
    assert_eq!(*log.borrow(), ["start", "update", "cancel", "update"]);
    match wake(&mut operation, 42) {
        WakeStep::Wake(Some(waker)) => waker.wake(),
        _ => panic!("no waker"),
    }
    assert_eq!(count(&cancel_count), 1);
    assert_eq!(ready(operation.poll_cancel(PTR, waker())), "cancelled 42");
    assert!(operation.is_done());
    assert_eq!(*log.borrow(), ["start", "update", "cancel", "update", "update", "into_cancel"]);
}

#[test]
fn poll_cancel_after_a_code_that_completes_nothing_waits_on() {
    let (mut operation, log) = operation(BLOCKED, BLOCKED);
    pending(operation.poll_complete(PTR, waker()));
    pending(operation.poll_cancel(PTR, waker()));
    wake(&mut operation, MOVED);
    let call = pending(operation.poll_cancel(PTR, waker()));
    assert_eq!(call, TaskCall::register_raw(PTR, 8));
    assert_eq!(*log.borrow(), ["start", "update", "cancel", "update", "update"]);
}

#[test]
fn detach_frees_what_was_not_started() {
    let (mut operation, log) = operation(BLOCKED, 9);
    assert!(matches!(operation.detach(PTR), Release::Free));
    assert!(log.borrow().is_empty());
}

#[test]
fn a_detached_operation_is_freed_by_the_code_that_completes_it() {
    let (mut operation, log) = operation(BLOCKED, 9);
    pending(operation.poll_complete(PTR, waker()));
    assert!(matches!(operation.detach(PTR), Release::Waiting));
    match wake(&mut operation, MOVED) {
        WakeStep::Detached(Release::Register(call)) => {
            assert_eq!(call, TaskCall::register_raw(PTR, 8))
        }
        _ => panic!("not registered again"),
    }
    assert!(matches!(wake(&mut operation, 42), WakeStep::Detached(Release::Free)));
    assert_eq!(*log.borrow(), ["start", "update", "update", "update"]);
}

#[test]
fn detach_looks_at_a_code_first() {
    let (mut operation1, log) = operation(BLOCKED, 9);
    pending(operation1.poll_complete(PTR, waker()));
    wake(&mut operation1, 42);
    assert!(matches!(operation1.detach(PTR), Release::Free));
    assert_eq!(*log.borrow(), ["start", "update", "update"]);

    let (mut operation2, _log) = operation(BLOCKED, 9);
    pending(operation2.poll_complete(PTR, waker()));
    wake(&mut operation2, BLOCKED);
    match operation2.detach(PTR) {
        Release::Register(call) => assert_eq!(call, TaskCall::register_raw(PTR, 7)),
        _ => panic!("not registered again"),
    }
    assert!(matches!(wake(&mut operation2, 42), WakeStep::Detached(Release::Free)));
}

#[test]
fn on_detached_code_completes_or_registers() {
    let (mut operation, _log) = operation(BLOCKED, 9);
    pending(operation.poll_complete(PTR, waker()));
    match operation.inner_mut().on_detached_code(PTR, MOVED) {
        Release::Register(call) => assert_eq!(call, TaskCall::register_raw(PTR, 8)),
        _ => panic!("not registered again"),
    }
    assert!(matches!(operation.inner_mut().on_detached_code(PTR, 42), Release::Free));
    assert!(operation.is_done());
}

#[test]
fn an_operation_is_not_detached_by_default() {
    assert!(!Op::detach_on_drop());
    assert!(Detachable::detach_on_drop());
}

#[test]
fn drop_frees_what_is_done() {
    let (mut operation, log) = operation(5, 9);
    ready(operation.poll_complete(PTR, waker()));
    assert!(matches!(operation.drop(PTR), DropStep::Released(Release::Free)));
    assert_eq!(*log.borrow(), ["start", "update"]);
}

#[test]
fn drop_cancels() {
    let (mut operation1, log1) = operation(BLOCKED, 9);
    assert!(matches!(operation1.drop(PTR), DropStep::Released(Release::Free)));
    assert_eq!(*log1.borrow(), ["start_cancelled"]);

    let (mut operation2, log2) = operation(BLOCKED, 9);
    pending(operation2.poll_complete(PTR, waker()));
    wake(&mut operation2, 42);
    assert!(matches!(operation2.drop(PTR), DropStep::Released(Release::Free)));
    assert!(operation2.is_done());
    assert_eq!(*log2.borrow(), ["start", "update", "update", "into_cancel"]);
}

#[test]
fn drop_unregisters_before_it_cancels() {
    let (mut operation, log) = operation(BLOCKED, 9);
    pending(operation.poll_complete(PTR, waker()));
    match operation.drop(PTR) {
        DropStep::Unregister(call) => assert_eq!(call, TaskCall::unregister_raw(PTR, 7)),
        DropStep::Released(_) => panic!("released"),
    }
    assert_eq!(*log.borrow(), ["start", "update"]);
    operation.finish_drop();
    assert!(operation.is_done());
    assert_eq!(*log.borrow(), ["start", "update", "cancel", "update", "into_cancel"]);
}

#[test]
fn drop_detaches_what_allows_it() {
    let (mut operation1, log1) = detachable(BLOCKED);
    assert!(matches!(operation1.drop(PTR), DropStep::Released(Release::Free)));
    assert!(log1.borrow().is_empty());

    let (mut operation2, log2) = detachable(BLOCKED);
    pending(operation2.poll_complete(PTR, waker()));
    assert!(matches!(operation2.drop(PTR), DropStep::Released(Release::Waiting)));
    assert!(matches!(wake(&mut operation2, 42), WakeStep::Detached(Release::Free)));
    assert_eq!(*log2.borrow(), ["start", "update", "update"]);
}

#[test]
fn done_is_final() {
    let (mut operation, log) = operation(5, 9);
    ready(operation.poll_complete(PTR, waker()));
    assert!(matches!(wake(&mut operation, 42), WakeStep::Wake(None)));
    assert!(operation.is_done());
    assert_eq!(*log.borrow(), ["start", "update"]);
}
