//! What holds of an operation together with the host that calls it back, over
//! any number of calls.

use std::task::Waker;
use vstd::prelude::*;

use crate::cabi::{EntryCall, HostAction, RestoreTask, Task, TaskCall, TaskFault};
use crate::model::{OperationView, WaitableOperationState};
use crate::op::WaitableOp;
use crate::step::{CancelStep, DropStep, Poll, PollStep, Release, WakeStep};

verus! {

/// Who an operation belongs to.
pub enum Standing {
    /// To its owner.
    Owned,
    /// To its owner, who has begun a cancellation and has to finish it.
    Cancelling,
    /// To its owner, who has begun to drop it and has to finish that.
    Dropping,
    /// To the host.
    Detached,
    /// To nobody: its memory is gone.
    Freed,
}

/// An operation and what the host knows of it.
pub struct System<S: WaitableOp> {
    pub op: OperationView<S>,
    /// The waitables for which the host will call the operation back.
    pub registered: Set<u32>,
    pub standing: Standing,
}

/// Something that happens to an operation. A call into the task that comes of
/// it is made at once. Wakers that an owner registers or unregisters by hand are
/// left aside: what the host knows then is up to the owner.
#[allow(inconsistent_fields)]
pub enum Event<S: WaitableOp> {
    PollComplete { callback_ptr: usize, waker: Waker, step: PollStep<S::Result> },
    PollCancel { callback_ptr: usize, waker: Waker, step: PollStep<S::Cancel> },
    Cancel { callback_ptr: usize, step: CancelStep<S::Cancel> },
    FinishCancel { cancel: S::Cancel },
    Drop { callback_ptr: usize, detach: bool, step: DropStep },
    FinishDrop { cancel: S::Cancel },
    /// The host reports an event of `waitable`, and forgets the registration.
    Wake { callback_ptr: usize, waitable: u32, code: u32, step: WakeStep },
}

/// The waitables registered after a poll.
pub open spec fn registered_after_poll<T>(registered: Set<u32>, step: PollStep<T>) -> Set<u32> {
    match step {
        PollStep::Ready(_) => registered,
        PollStep::Pending(call) => call.registered_after(registered),
    }
}

/// The waitables registered once an operation has been released.
pub open spec fn registered_after_release(registered: Set<u32>, release: Release) -> Set<u32> {
    match release {
        Release::Register(call) => call.registered_after(registered),
        _ => registered,
    }
}

/// Who a released operation belongs to.
pub open spec fn standing_after_release(release: Release) -> Standing {
    match release {
        Release::Free => Standing::Freed,
        _ => Standing::Detached,
    }
}

impl<S: WaitableOp> System<S> {
    /// An operation that was just made.
    pub open spec fn fresh(op: S, state: S::Start) -> Self {
        System {
            op: OperationView::fresh(op, state),
            registered: Set::empty(),
            standing: Standing::Owned,
        }
    }

    /// Whether `event` may happen, and lead to `post`.
    pub open spec fn next(self, event: Event<S>, post: Self) -> bool {
        match event {
            Event::PollComplete { callback_ptr, waker, step } => {
                &&& self.standing is Owned
                &&& !self.op.cancelling
                &&& self.op.poll_complete(callback_ptr, waker, post.op, step)
                &&& post.registered == registered_after_poll(self.registered, step)
                &&& post.standing is Owned
            },
            Event::PollCancel { callback_ptr, waker, step } => {
                &&& self.standing is Owned
                &&& self.op.poll_cancel(callback_ptr, waker, post.op, step)
                &&& post.registered == registered_after_poll(self.registered, step)
                &&& post.standing is Owned
            },
            Event::Cancel { callback_ptr, step } => {
                &&& self.standing is Owned
                &&& self.op.cancel(callback_ptr, post.op, step)
                &&& match step {
                    CancelStep::Cancelled(_) => {
                        &&& post.registered == self.registered
                        &&& post.standing is Owned
                    },
                    CancelStep::Unregister(call) => {
                        &&& post.registered == call.registered_after(self.registered)
                        &&& post.standing is Cancelling
                    },
                }
            },
            Event::FinishCancel { cancel } => {
                &&& self.standing is Cancelling
                &&& self.op.finish_cancel(post.op, cancel)
                &&& post.registered == self.registered
                &&& post.standing is Owned
            },
            Event::Drop { callback_ptr, detach, step } => {
                &&& self.standing is Owned
                &&& self.op.drop(detach, callback_ptr, post.op, step)
                &&& match step {
                    DropStep::Released(release) => {
                        &&& post.registered == registered_after_release(self.registered, release)
                        &&& post.standing == standing_after_release(release)
                    },
                    DropStep::Unregister(call) => {
                        &&& post.registered == call.registered_after(self.registered)
                        &&& post.standing is Dropping
                    },
                }
            },
            Event::FinishDrop { cancel } => {
                &&& self.standing is Dropping
                &&& self.op.finish_cancel(post.op, cancel)
                &&& post.registered == self.registered
                &&& post.standing is Freed
            },
            Event::Wake { callback_ptr, waitable, code, step } => {
                &&& self.registered.contains(waitable)
                &&& self.op.cabi_wake(callback_ptr, code, post.op, step)
                &&& match step {
                    WakeStep::Wake(_) => {
                        &&& post.registered == self.registered.remove(waitable)
                        &&& post.standing == self.standing
                    },
                    WakeStep::Detached(release) => {
                        &&& post.registered == registered_after_release(
                            self.registered.remove(waitable),
                            release,
                        )
                        &&& post.standing == standing_after_release(release)
                    },
                }
            },
        }
    }

    /// The host will call back exactly the operations that wait for it, and
    /// each for exactly the waitable that it waits on.
    pub open spec fn inv(self) -> bool {
        match self.standing {
            Standing::Owned => {
                &&& self.op.owned()
                &&& self.registered == self.op.awaited()
            },
            Standing::Cancelling | Standing::Dropping => {
                &&& self.op.owned()
                &&& self.op.state is InProgress
                &&& self.op.code is None
                &&& self.registered == Set::<u32>::empty()
            },
            Standing::Detached => {
                &&& self.op.orphaned()
                &&& self.registered == self.op.awaited()
            },
            Standing::Freed => self.registered == Set::<u32>::empty(),
        }
    }

    /// Whether `event` leaves a registration behind that the operation does not
    /// wait for: an owner asks for asynchronous cancellation of an operation
    /// that is registered, and the request completes it at once or has it wait
    /// on another waitable.
    pub open spec fn strands(self, event: Event<S>, post: Self) -> bool {
        &&& event is PollCancel
        &&& self.op.state is InProgress
        &&& self.op.code is None
        &&& !self.op.cancelling
        &&& post.op.awaited() != self.op.awaited()
    }
}

/// A new operation is not registered, and need not be.
pub proof fn fresh_inv<S: WaitableOp>(op: S, state: S::Start)
    ensures
        System::fresh(op, state).inv(),
{
}

/// Whatever happens, the registrations of an operation match what it waits for,
/// unless the event strands one.
pub proof fn next_keeps_inv<S: WaitableOp>(pre: System<S>, event: Event<S>, post: System<S>)
    requires
        pre.inv(),
        pre.next(event, post),
        !pre.strands(event, post),
    ensures
        post.inv(),
{
    match event {
        Event::Wake { waitable, .. } => {
            assert(pre.registered.remove(waitable) =~= Set::empty());
        },
        _ => {},
    }
    match post.standing {
        Standing::Owned | Standing::Detached => {
            assert(post.registered =~= post.op.awaited());
        },
        _ => {
            assert(post.registered =~= Set::empty());
        },
    }
}

/// The events set apart in [`next_keeps_inv`] are exactly those that break the
/// match between registrations and what the operation waits for.
pub proof fn stranding_breaks_inv<S: WaitableOp>(
    pre: System<S>,
    event: Event<S>,
    post: System<S>,
)
    requires
        pre.inv(),
        pre.next(event, post),
        pre.strands(event, post),
    ensures
        !post.inv(),
        pre.op.awaited().subset_of(post.registered),
{
    let waitable = S::waitable_of(pre.op.state->InProgress_0);
    assert(post.registered.contains(waitable));
    if post.registered == post.op.awaited() {
        assert(post.op.awaited().contains(waitable));
        assert(post.op.awaited() =~= pre.op.awaited());
    }
}

/// However long an operation lives, its registrations match what it waits for
/// all along, as long as no event strands one.
pub proof fn run_inv<S: WaitableOp>(
    op: S,
    state: S::Start,
    events: Seq<Event<S>>,
    systems: Seq<System<S>>,
)
    requires
        systems.len() == events.len() + 1,
        systems[0] == System::fresh(op, state),
        forall|i: int|
            0 <= i < events.len() ==> {
                &&& (#[trigger] systems[i]).next(events[i], systems[i + 1])
                &&& !systems[i].strands(events[i], systems[i + 1])
            },
    ensures
        forall|i: int| 0 <= i < systems.len() ==> (#[trigger] systems[i]).inv(),
    decreases events.len(),
{
    if events.len() == 0 {
        fresh_inv(op, state);
    } else {
        let last = events.len() - 1;
        let earlier = systems.drop_last();
        assert forall|i: int| 0 <= i < events.drop_last().len() implies {
            &&& (#[trigger] earlier[i]).next(events.drop_last()[i], earlier[i + 1])
            &&& !earlier[i].strands(events.drop_last()[i], earlier[i + 1])
        } by {
            assert(earlier[i] == systems[i]);
        }
        run_inv(op, state, events.drop_last(), earlier);
        assert(earlier[last] == systems[last]);
        next_keeps_inv(systems[last], events[last], systems[last + 1]);
        assert forall|i: int| 0 <= i < systems.len() implies (#[trigger] systems[i]).inv() by {
            if i <= last {
                assert(earlier[i] == systems[i]);
            }
        }
    }
}

/// The memory of an operation is not touched once it is freed: nothing can
/// happen to it any more, and the host in particular has no way to call back.
pub proof fn freed_is_left_alone<S: WaitableOp>(pre: System<S>, event: Event<S>, post: System<S>)
    requires
        pre.inv(),
        pre.standing is Freed,
    ensures
        pre.registered == Set::<u32>::empty(),
        !pre.next(event, post),
{
}

/// An operation that is done stays done.
pub proof fn done_is_final<S: WaitableOp>(pre: System<S>, event: Event<S>, post: System<S>)
    requires
        pre.next(event, post),
        pre.op.state is Done,
    ensures
        post.op.state is Done,
{
}

/// An operation is started at most once: having left its initial state, it
/// never returns to it.
pub proof fn never_starts_again<S: WaitableOp>(pre: System<S>, event: Event<S>, post: System<S>)
    requires
        pre.next(event, post),
        pre.op.state !is Start,
    ensures
        post.op.state !is Start,
{
}

/// A request for asynchronous cancellation is never withdrawn, and only
/// `poll_cancel` makes one.
pub proof fn cancelling_is_final<S: WaitableOp>(pre: System<S>, event: Event<S>, post: System<S>)
    requires
        pre.next(event, post),
    ensures
        pre.op.cancelling ==> post.op.cancelling,
        !pre.op.cancelling && post.op.cancelling ==> event is PollCancel,
{
}

/// A status code that the host delivers is not lost: there is none that it
/// could overwrite, and an owner with a pending poll is woken.
pub proof fn wake_keeps_code<S: WaitableOp>(
    pre: System<S>,
    callback_ptr: usize,
    waitable: u32,
    code: u32,
    step: WakeStep,
    post: System<S>,
)
    requires
        pre.inv(),
        pre.next(Event::Wake { callback_ptr, waitable, code, step }, post),
    ensures
        pre.op.state is InProgress,
        pre.op.code is None,
        !pre.op.detached ==> {
            &&& post.op.code == Some(code)
            &&& pre.op.waker is Some
            &&& step == WakeStep::Wake(pre.op.waker)
        },
{
}

/// A waker that was registered is woken by the next status code, which is filled
/// in for the owner to find.
pub proof fn registered_waker_is_woken<S: WaitableOp>(
    pre: OperationView<S>,
    waker: Waker,
    callback_ptr: usize,
    code: u32,
    step: WakeStep,
    post: OperationView<S>,
)
    requires
        !pre.detached,
        (OperationView { waker: Some(waker), ..pre }).cabi_wake(callback_ptr, code, post, step),
    ensures
        step == WakeStep::Wake(Some(waker)),
        post.code == Some(code),
        post.waker is None,
{
}

/// Unregistering undoes a registration for the same waitable.
pub proof fn unregister_undoes_register(
    callback_ptr: usize,
    waitable: u32,
    registered: Set<u32>,
)
    ensures
        ({
            let after = TaskCall::unregister(callback_ptr, waitable).registered_after(
                TaskCall::register(callback_ptr, waitable).registered_after(registered),
            );
            &&& after == registered.remove(waitable)
            &&& !registered.contains(waitable) ==> after == registered
        }),
{
    let after = TaskCall::unregister(callback_ptr, waitable).registered_after(
        TaskCall::register(callback_ptr, waitable).registered_after(registered),
    );
    assert(after =~= registered.remove(waitable));
    if !registered.contains(waitable) {
        assert(after =~= registered);
    }
}

/// An owner whose poll was pending is woken with the waker it polled with, and
/// its next poll looks at the very code that the host delivered.
pub proof fn wake_then_poll_complete<S: WaitableOp>(
    pre: OperationView<S>,
    callback_ptr: usize,
    waker: Waker,
    call: TaskCall,
    suspended: OperationView<S>,
    code: u32,
    wake: WakeStep,
    woken: OperationView<S>,
    next_waker: Waker,
    step: PollStep<S::Result>,
    post: OperationView<S>,
)
    requires
        pre.owned(),
        pre.poll_complete(callback_ptr, waker, suspended, PollStep::Pending(call)),
        suspended.cabi_wake(callback_ptr, code, woken, wake),
        woken.poll_complete(callback_ptr, next_waker, post, step),
    ensures
        wake == WakeStep::Wake(Some(waker)),
        (OperationView { waker: None, ..suspended }).complete_with(
            code,
            callback_ptr,
            next_waker,
            post,
            step,
        ),
{
    assert(OperationView { code: None, ..woken } == (OperationView { waker: None, ..suspended }));
}

/// An owner whose cancellation was pending is woken with the waker it polled
/// with. If the code that the host delivered completes the operation, the next
/// poll hands out the result; if not, it waits again without asking a second
/// time.
pub proof fn wake_then_poll_cancel<S: WaitableOp>(
    pre: OperationView<S>,
    callback_ptr: usize,
    waker: Waker,
    call: TaskCall,
    suspended: OperationView<S>,
    code: u32,
    wake: WakeStep,
    woken: OperationView<S>,
    next_waker: Waker,
    step: PollStep<S::Cancel>,
    post: OperationView<S>,
)
    requires
        pre.owned(),
        pre.poll_cancel(callback_ptr, waker, suspended, PollStep::Pending(call)),
        suspended.cabi_wake(callback_ptr, code, woken, wake),
        woken.poll_cancel(callback_ptr, next_waker, post, step),
    ensures
        wake == WakeStep::Wake(Some(waker)),
        suspended.cancelling,
        (OperationView { waker: None, ..suspended }).cancel_with(
            code,
            callback_ptr,
            next_waker,
            post,
            step,
        ),
{
    assert(OperationView { code: None, ..woken } == (OperationView { waker: None, ..suspended }));
}

/// A cancellation right after a pending poll takes back the registration that
/// the poll made, and nothing else.
pub proof fn cancel_takes_back_registration<S: WaitableOp>(
    pre: OperationView<S>,
    callback_ptr: usize,
    waker: Waker,
    call: TaskCall,
    suspended: OperationView<S>,
    step: CancelStep<S::Cancel>,
    post: OperationView<S>,
    registered: Set<u32>,
)
    requires
        pre.owned(),
        ({
            ||| pre.poll_complete(callback_ptr, waker, suspended, PollStep::Pending(call))
            ||| pre.poll_cancel(callback_ptr, waker, suspended, PollStep::Pending(call))
        }),
        suspended.cancel(callback_ptr, post, step),
    ensures
        step == CancelStep::<S::Cancel>::Unregister(
            TaskCall::unregister(callback_ptr, call.waitable),
        ),
        step->Unregister_0.registered_after(call.registered_after(registered))
            == registered.remove(call.waitable),
{
    unregister_undoes_register(callback_ptr, call.waitable, registered);
}

/// An operation that is cancelled before its first poll is never started: it is
/// handed its initial state back, whichever way it is cancelled.
pub proof fn cancel_before_start<S: WaitableOp>(
    op: S,
    state: S::Start,
    callback_ptr: usize,
    waker: Waker,
    cancel_step: CancelStep<S::Cancel>,
    poll_step: PollStep<S::Cancel>,
    post: OperationView<S>,
)
    ensures
        OperationView::fresh(op, state).cancel(callback_ptr, post, cancel_step) ==> {
            &&& cancel_step is Cancelled
            &&& post.state is Done
            &&& S::start_cancelled_post(op, state, post.op, cancel_step->Cancelled_0)
        },
        OperationView::fresh(op, state).poll_cancel(callback_ptr, waker, post, poll_step) ==> {
            &&& poll_step is Ready
            &&& post.state is Done
            &&& S::start_cancelled_post(op, state, post.op, poll_step->Ready_0)
        },
{
}

/// If asking the operation to cancel always completes it, then so does the
/// first poll of an asynchronous cancellation.
pub proof fn synchronous_poll_cancel_is_ready<S: WaitableOp>(
    pre: OperationView<S>,
    callback_ptr: usize,
    waker: Waker,
    step: PollStep<S::Cancel>,
    post: OperationView<S>,
)
    requires
        forall|op: S, in_progress: S::InProgress| #[trigger]
            OperationView::<S>::cancels_synchronously(op, in_progress),
        !pre.cancelling,
        pre.poll_cancel(callback_ptr, waker, post, step),
    ensures
        step is Ready,
        post.state is Done,
{
    if step is Pending {
        let start = if pre.code is Some {
            choose|mid: OperationView<S>|
                {
                    &&& #[trigger] OperationView { code: None, ..pre }.apply_code(
                        pre.code->0,
                        mid,
                        Poll::Pending,
                    )
                    &&& mid.request_cancel(callback_ptr, waker, post, step)
                }
        } else {
            pre
        };
        assert(OperationView::<S>::cancels_synchronously(
            start.op,
            start.state->InProgress_0,
        ));
    }
}

/// A call into the task leaves the slot of the current task as it was, and
/// empties it for as long as the task's entry runs.
pub proof fn task_call_restores_slot(
    call: TaskCall,
    slot: Option<Task>,
    entry: EntryCall,
    prev: Option<usize>,
    restore: RestoreTask,
)
    requires
        call.after_task_taken(slot) == Ok::<EntryCall, TaskFault>(entry),
        entry.after_entry_returned(prev) == Ok::<RestoreTask, TaskFault>(restore),
    ensures
        call.due().slot_after(slot) is None,
        entry.due().slot_after(call.due().slot_after(slot)) is None,
        restore.due().slot_after(entry.due().slot_after(call.due().slot_after(slot))) == slot,
{
}

/// A registration prepared for a pointer and a waitable has the task taken out,
/// registers exactly that pointer for exactly that waitable with the task that
/// was taken, and puts that task back. It fails exactly if there is no task, if
/// the task is too old, or if another pointer was registered.
pub proof fn register_carries_pointer(
    callback_ptr: usize,
    waitable: u32,
    task: Task,
    prev: Option<usize>,
)
    ensures
        ({
            let call = TaskCall::register(callback_ptr, waitable);
            let entry = call.after_task_taken(Some(task));
            &&& call.entry is WaitableRegister
            &&& call.callback_ptr == callback_ptr
            &&& call.waitable == waitable
            &&& call.due() == HostAction::SetTask(None)
            &&& call.after_task_taken(None) is Err
            &&& entry is Ok <==> task.version >= 1
            &&& entry is Ok ==> entry->Ok_0.due() == (HostAction::WaitableRegister {
                task,
                waitable,
                callback_ptr,
            })
            &&& entry is Ok ==> {
                let restore = entry->Ok_0.after_entry_returned(prev);
                &&& restore is Ok <==> prev is None || prev == Some(callback_ptr)
                &&& restore is Ok ==> restore->Ok_0.due() == HostAction::SetTask(Some(task))
            }
        }),
{
}

/// The removal of a registration has the task taken out, removes the
/// registration of exactly that waitable from the task that was taken, and puts
/// that task back. It fails exactly if there is no task, if the task is too old,
/// or if another pointer was registered.
pub proof fn unregister_carries_waitable(
    callback_ptr: usize,
    waitable: u32,
    task: Task,
    prev: Option<usize>,
)
    ensures
        ({
            let call = TaskCall::unregister(callback_ptr, waitable);
            let entry = call.after_task_taken(Some(task));
            &&& call.entry is WaitableUnregister
            &&& call.callback_ptr == callback_ptr
            &&& call.waitable == waitable
            &&& call.due() == HostAction::SetTask(None)
            &&& call.after_task_taken(None) is Err
            &&& entry is Ok <==> task.version >= 1
            &&& entry is Ok ==> entry->Ok_0.due() == (HostAction::WaitableUnregister {
                task,
                waitable,
            })
            &&& entry is Ok ==> {
                let restore = entry->Ok_0.after_entry_returned(prev);
                &&& restore is Ok <==> prev is None || prev == Some(callback_ptr)
                &&& restore is Ok ==> restore->Ok_0.due() == HostAction::SetTask(Some(task))
            }
        }),
{
}

/// An operation at an address, and the pointers that the host will call back
/// with.
pub struct Addressed<S: WaitableOp> {
    pub system: System<S>,
    /// Where the operation is.
    pub callback_ptr: usize,
    /// The current task.
    pub task: Task,
    /// By waitable, the pointer that the host got for it.
    pub pointers: Map<u32, usize>,
}

/// The call into the task that comes of an event, if any.
pub open spec fn call_of<S: WaitableOp>(event: Event<S>) -> Option<TaskCall> {
    match event {
        Event::PollComplete { step: PollStep::Pending(call), .. } => Some(call),
        Event::PollCancel { step: PollStep::Pending(call), .. } => Some(call),
        Event::Cancel { step: CancelStep::Unregister(call), .. } => Some(call),
        Event::Drop { step: DropStep::Unregister(call), .. } => Some(call),
        Event::Drop { step: DropStep::Released(Release::Register(call)), .. } => Some(call),
        Event::Wake { step: WakeStep::Detached(Release::Register(call)), .. } => Some(call),
        _ => None,
    }
}

impl<S: WaitableOp> Addressed<S> {
    /// The pointer that the host has for `waitable`, which is what it replies
    /// to a call about it.
    pub open spec fn pointer(self, waitable: u32) -> Option<usize> {
        if self.pointers.dom().contains(waitable) {
            Some(self.pointers[waitable])
        } else {
            None
        }
    }

    /// Whether `event` may happen, and lead to `post`. The owner passes the
    /// address of the operation; the host passes the pointer that it got for the
    /// waitable. The task entry that is due in a call changes the pointers.
    pub open spec fn next(self, event: Event<S>, post: Self) -> bool {
        let pointers = match event {
            Event::Wake { waitable, .. } => self.pointers.remove(waitable),
            _ => self.pointers,
        };
        &&& self.system.next(event, post.system)
        &&& post.callback_ptr == self.callback_ptr
        &&& post.task == self.task
        &&& match event {
            Event::PollComplete { callback_ptr, .. } => callback_ptr == self.callback_ptr,
            Event::PollCancel { callback_ptr, .. } => callback_ptr == self.callback_ptr,
            Event::Cancel { callback_ptr, .. } => callback_ptr == self.callback_ptr,
            Event::Drop { callback_ptr, .. } => callback_ptr == self.callback_ptr,
            Event::Wake { callback_ptr, waitable, .. } => {
                self.pointer(waitable) == Some(callback_ptr)
            },
            _ => true,
        }
        &&& match call_of(event) {
            Some(call) => {
                let entry = call.after_task_taken(Some(self.task));
                &&& entry is Ok
                &&& post.pointers == entry->Ok_0.due().pointers_after(pointers)
            },
            None => post.pointers == pointers,
        }
    }

    /// The host has a pointer exactly for the waitables that are registered,
    /// and it is the address of the operation.
    pub open spec fn inv(self) -> bool {
        &&& self.pointers.dom() == self.system.registered
        &&& forall|waitable: u32| #[trigger]
            self.pointers.dom().contains(waitable) ==> self.pointers[waitable]
                == self.callback_ptr
    }
}

/// Whatever happens, every pointer that the host has is the address of the
/// operation, and it has one exactly for the waitables that are registered.
pub proof fn next_keeps_pointers<S: WaitableOp>(
    pre: Addressed<S>,
    event: Event<S>,
    post: Addressed<S>,
)
    requires
        pre.inv(),
        pre.next(event, post),
    ensures
        post.inv(),
{
    assert(post.pointers.dom() =~= post.system.registered);
}

/// The host calls an operation back at its own address.
pub proof fn host_calls_back_own_pointer<S: WaitableOp>(
    pre: Addressed<S>,
    callback_ptr: usize,
    waitable: u32,
    code: u32,
    step: WakeStep,
    post: Addressed<S>,
)
    requires
        pre.inv(),
        pre.next(Event::Wake { callback_ptr, waitable, code, step }, post),
    ensures
        callback_ptr == pre.callback_ptr,
        pre.pointers.dom().contains(waitable),
{
}

/// Every call that an operation has made is made under its own address, and
/// what the host replies never makes it fail.
pub proof fn calls_are_own<S: WaitableOp>(
    pre: Addressed<S>,
    event: Event<S>,
    post: Addressed<S>,
    call: TaskCall,
)
    requires
        pre.inv(),
        pre.next(event, post),
        call_of(event) == Some(call),
    ensures
        call.callback_ptr == pre.callback_ptr,
        pre.task.version >= 1,
        call.after_task_taken(Some(pre.task)) == Ok::<EntryCall, TaskFault>(
            (EntryCall { call, task: pre.task }),
        ),
        (EntryCall { call, task: pre.task }).after_entry_returned(
            pre.pointer(call.waitable),
        ) is Ok,
        (EntryCall { call, task: pre.task }).after_entry_returned(None) is Ok,
        call.entry is WaitableRegister ==> post.pointer(call.waitable) == Some(pre.callback_ptr),
        call.entry is WaitableUnregister ==> post.pointer(call.waitable) is None,
{
}

/// Once asynchronous cancellation has been asked for, it is never asked for
/// again: in every later poll of the cancellation, all that the operation is
/// handed is a status code from the host, if there is one.
pub proof fn cancellation_is_asked_once<S: WaitableOp>(
    systems: Seq<System<S>>,
    events: Seq<Event<S>>,
    asked: int,
    later: int,
    state: S::InProgress,
)
    requires
        systems.len() == events.len() + 1,
        forall|i: int|
            0 <= i < events.len() ==> (#[trigger] systems[i]).next(events[i], systems[i + 1]),
        0 <= asked < later < events.len(),
        systems[asked + 1].op.cancelling,
        events[later] is PollCancel,
        systems[later].op.state == WaitableOperationState::<S>::InProgress(state),
    ensures
        systems[later].op.code is None ==> {
            &&& S::waitable_post(systems[later].op.op, state, systems[later + 1].op.op)
            &&& systems[later + 1].op.state == systems[later].op.state
        },
        systems[later].op.code is Some ==> exists|
            op1: S,
            outcome: Result<S::Result, S::InProgress>,
        |
            {
                &&& #[trigger] S::update_post(
                    systems[later].op.op,
                    state,
                    systems[later].op.code->0,
                    op1,
                    outcome,
                )
                &&& match outcome {
                    Ok(result) => {
                        &&& systems[later + 1].op.state is Done
                        &&& exists|cancel: S::Cancel| #[trigger]
                            S::into_cancel_post(op1, result, systems[later + 1].op.op, cancel)
                    },
                    Err(next) => {
                        &&& systems[later + 1].op.state == WaitableOperationState::<
                            S,
                        >::InProgress(next)
                        &&& S::waitable_post(op1, next, systems[later + 1].op.op)
                    },
                }
            },
    decreases later - asked,
{
    if asked + 1 < later {
        assert(systems[asked + 1].next(events[asked + 1], systems[asked + 2]));
        cancelling_is_final(systems[asked + 1], events[asked + 1], systems[asked + 2]);
        cancellation_is_asked_once(systems, events, asked + 1, later, state);
    } else {
        let pre = systems[later].op;
        let post = systems[later + 1].op;
        assert(systems[later].next(events[later], systems[later + 1]));
        match events[later] {
            Event::PollCancel { callback_ptr, waker, step } => {
                if pre.code is Some {
                    crate::behaviour::poll_cancel_applies_delivered_code(
                        pre,
                        state,
                        pre.code->0,
                        callback_ptr,
                        waker,
                        post,
                        step,
                    );
                }
            },
            _ => {},
        }
    }
}

} // verus!
