//! What each function of an operation comes to in terms of the operation's own
//! relations: which of its methods take part, in which order, with which status
//! codes, and what is made of what they return.

use std::task::Waker;
use vstd::prelude::*;

use crate::cabi::{TaskCall, TaskEntry};
use crate::model::{OperationView, WaitableOperationState};
use crate::op::WaitableOp;
use crate::step::{CancelStep, DropStep, Poll, PollStep, Release, WakeStep};

verus! {

/// The first poll starts the operation, and the very next code handed to it is
/// the one the start returned. The poll is ready exactly if that completes it.
pub proof fn first_poll_starts<S: WaitableOp>(
    pre: OperationView<S>,
    start: S::Start,
    callback_ptr: usize,
    waker: Waker,
    post: OperationView<S>,
    step: PollStep<S::Result>,
)
    requires
        pre.state == WaitableOperationState::<S>::Start(start),
        pre.poll_complete(callback_ptr, waker, post, step),
    ensures
        exists|
            op1: S,
            code: u32,
            state1: S::InProgress,
            op2: S,
            outcome: Result<S::Result, S::InProgress>,
        |
            {
                &&& #[trigger] S::start_post(pre.op, start, op1, code, state1)
                &&& #[trigger] S::update_post(op1, state1, code, op2, outcome)
                &&& match outcome {
                    Ok(result) => {
                        &&& step == PollStep::<S::Result>::Ready(result)
                        &&& post.op == op2
                        &&& post.state is Done
                        &&& post.waker == pre.waker
                    },
                    Err(next) => {
                        &&& step == PollStep::<S::Result>::Pending(
                            (TaskCall {
                                entry: TaskEntry::WaitableRegister,
                                callback_ptr,
                                waitable: S::waitable_of(next),
                            }),
                        )
                        &&& S::waitable_post(op2, next, post.op)
                        &&& post.state == WaitableOperationState::<S>::InProgress(next)
                        &&& post.waker == Some(waker)
                    },
                }
            },
        post.code == pre.code,
        post.detached == pre.detached,
        post.cancelling == pre.cancelling,
{
}

/// A poll that finds a status code hands exactly that code to the operation,
/// once. It is ready exactly if that completes the operation, with its result;
/// otherwise the operation goes on from the state it answered with, and is
/// registered for the waitable of that state.
pub proof fn poll_applies_delivered_code<S: WaitableOp>(
    pre: OperationView<S>,
    state: S::InProgress,
    code: u32,
    callback_ptr: usize,
    waker: Waker,
    post: OperationView<S>,
    step: PollStep<S::Result>,
)
    requires
        pre.state == WaitableOperationState::<S>::InProgress(state),
        pre.code == Some(code),
        pre.poll_complete(callback_ptr, waker, post, step),
    ensures
        exists|op1: S, outcome: Result<S::Result, S::InProgress>|
            {
                &&& #[trigger] S::update_post(pre.op, state, code, op1, outcome)
                &&& match outcome {
                    Ok(result) => {
                        &&& step == PollStep::<S::Result>::Ready(result)
                        &&& post.op == op1
                        &&& post.state is Done
                        &&& post.waker == pre.waker
                    },
                    Err(next) => {
                        &&& step == PollStep::<S::Result>::Pending(
                            (TaskCall {
                                entry: TaskEntry::WaitableRegister,
                                callback_ptr,
                                waitable: S::waitable_of(next),
                            }),
                        )
                        &&& S::waitable_post(op1, next, post.op)
                        &&& post.state == WaitableOperationState::<S>::InProgress(next)
                        &&& post.waker == Some(waker)
                    },
                }
            },
        post.code is None,
        post.detached == pre.detached,
        post.cancelling == pre.cancelling,
{
}

/// A poll that finds no status code hands none to the operation: it registers
/// for the waitable of the state the operation is in, with the new waker.
pub proof fn poll_without_code_waits<S: WaitableOp>(
    pre: OperationView<S>,
    state: S::InProgress,
    callback_ptr: usize,
    waker: Waker,
    post: OperationView<S>,
    step: PollStep<S::Result>,
)
    requires
        pre.state == WaitableOperationState::<S>::InProgress(state),
        pre.code is None,
        pre.poll_complete(callback_ptr, waker, post, step),
    ensures
        step == PollStep::<S::Result>::Pending(
            (TaskCall {
                entry: TaskEntry::WaitableRegister,
                callback_ptr,
                waitable: S::waitable_of(state),
            }),
        ),
        S::waitable_post(pre.op, state, post.op),
        post.state == pre.state,
        post.waker == Some(waker),
        post.code is None,
        post.detached == pre.detached,
        post.cancelling == pre.cancelling,
{
}

/// The status code that reaches the operation is the one the host delivered,
/// whatever its value: a wake with `code` and the poll after it amount to one
/// update with `code`.
pub proof fn delivered_code_reaches_operation<S: WaitableOp>(
    pre: OperationView<S>,
    state: S::InProgress,
    code: u32,
    wake: WakeStep,
    woken: OperationView<S>,
    callback_ptr: usize,
    waker: Waker,
    post: OperationView<S>,
    step: PollStep<S::Result>,
)
    requires
        pre.state == WaitableOperationState::<S>::InProgress(state),
        !pre.detached,
        pre.cabi_wake(callback_ptr, code, woken, wake),
        woken.poll_complete(callback_ptr, waker, post, step),
    ensures
        exists|op1: S, outcome: Result<S::Result, S::InProgress>|
            {
                &&& #[trigger] S::update_post(pre.op, state, code, op1, outcome)
                &&& match outcome {
                    Ok(result) => {
                        &&& step == PollStep::<S::Result>::Ready(result)
                        &&& post.op == op1
                        &&& post.state is Done
                    },
                    Err(next) => {
                        &&& step is Pending
                        &&& S::waitable_post(op1, next, post.op)
                        &&& post.state == WaitableOperationState::<S>::InProgress(next)
                    },
                }
            },
{
}

/// Cancelling an operation before its start hands it its initial state back,
/// and nothing else happens to it.
pub proof fn poll_cancel_before_start<S: WaitableOp>(
    pre: OperationView<S>,
    start: S::Start,
    callback_ptr: usize,
    waker: Waker,
    post: OperationView<S>,
    step: PollStep<S::Cancel>,
)
    requires
        pre.state == WaitableOperationState::<S>::Start(start),
        pre.poll_cancel(callback_ptr, waker, post, step),
    ensures
        step is Ready,
        S::start_cancelled_post(pre.op, start, post.op, step->Ready_0),
        post.state is Done,
        post.code == pre.code,
        post.waker == pre.waker,
        post.detached == pre.detached,
        post.cancelling == pre.cancelling,
{
}

/// The first poll of a cancellation that finds no status code asks the
/// operation to cancel, once, and the very next code handed to the operation is
/// the one that the request returned.
pub proof fn poll_cancel_asks<S: WaitableOp>(
    pre: OperationView<S>,
    state: S::InProgress,
    callback_ptr: usize,
    waker: Waker,
    post: OperationView<S>,
    step: PollStep<S::Cancel>,
)
    requires
        pre.state == WaitableOperationState::<S>::InProgress(state),
        pre.code is None,
        !pre.cancelling,
        pre.poll_cancel(callback_ptr, waker, post, step),
    ensures
        exists|
            op1: S,
            state1: S::InProgress,
            code: u32,
            op2: S,
            outcome: Result<S::Result, S::InProgress>,
        |
            {
                &&& #[trigger] S::cancel_post(pre.op, state, op1, state1, code)
                &&& #[trigger] S::update_post(op1, state1, code, op2, outcome)
                &&& match outcome {
                    Ok(result) => {
                        &&& step is Ready
                        &&& S::into_cancel_post(op2, result, post.op, step->Ready_0)
                        &&& post.state is Done
                        &&& post.waker == pre.waker
                    },
                    Err(next) => {
                        &&& step == PollStep::<S::Cancel>::Pending(
                            (TaskCall {
                                entry: TaskEntry::WaitableRegister,
                                callback_ptr,
                                waitable: S::waitable_of(next),
                            }),
                        )
                        &&& S::waitable_post(op2, next, post.op)
                        &&& post.state == WaitableOperationState::<S>::InProgress(next)
                        &&& post.waker == Some(waker)
                    },
                }
            },
        post.cancelling,
        post.code is None,
        post.detached == pre.detached,
{
}

/// A poll of a cancellation that was asked for before and that finds no status
/// code does not ask again: it only registers.
pub proof fn poll_cancel_does_not_ask_again<S: WaitableOp>(
    pre: OperationView<S>,
    state: S::InProgress,
    callback_ptr: usize,
    waker: Waker,
    post: OperationView<S>,
    step: PollStep<S::Cancel>,
)
    requires
        pre.state == WaitableOperationState::<S>::InProgress(state),
        pre.code is None,
        pre.cancelling,
        pre.poll_cancel(callback_ptr, waker, post, step),
    ensures
        step == PollStep::<S::Cancel>::Pending(
            (TaskCall {
                entry: TaskEntry::WaitableRegister,
                callback_ptr,
                waitable: S::waitable_of(state),
            }),
        ),
        S::waitable_post(pre.op, state, post.op),
        post.state == pre.state,
        post.waker == Some(waker),
        post.code is None,
        post.cancelling,
        post.detached == pre.detached,
{
}

/// A poll of a cancellation that was asked for before hands a delivered code to
/// the operation, and never asks again, also if the code does not complete it.
pub proof fn poll_cancel_applies_delivered_code<S: WaitableOp>(
    pre: OperationView<S>,
    state: S::InProgress,
    code: u32,
    callback_ptr: usize,
    waker: Waker,
    post: OperationView<S>,
    step: PollStep<S::Cancel>,
)
    requires
        pre.state == WaitableOperationState::<S>::InProgress(state),
        pre.code == Some(code),
        pre.cancelling,
        pre.poll_cancel(callback_ptr, waker, post, step),
    ensures
        exists|op1: S, outcome: Result<S::Result, S::InProgress>|
            {
                &&& #[trigger] S::update_post(pre.op, state, code, op1, outcome)
                &&& match outcome {
                    Ok(result) => {
                        &&& step is Ready
                        &&& S::into_cancel_post(op1, result, post.op, step->Ready_0)
                        &&& post.state is Done
                        &&& post.waker == pre.waker
                    },
                    Err(next) => {
                        &&& step == PollStep::<S::Cancel>::Pending(
                            (TaskCall {
                                entry: TaskEntry::WaitableRegister,
                                callback_ptr,
                                waitable: S::waitable_of(next),
                            }),
                        )
                        &&& S::waitable_post(op1, next, post.op)
                        &&& post.state == WaitableOperationState::<S>::InProgress(next)
                        &&& post.waker == Some(waker)
                    },
                }
            },
        post.code is None,
        post.cancelling,
        post.detached == pre.detached,
{
}

/// The first poll of a cancellation looks at a delivered code before anything
/// else. If the code completes the operation, nothing is asked. If not, the
/// operation is asked to cancel, once, and the code that the request returned is
/// the very next one handed to it.
pub proof fn poll_cancel_asks_after_delivered_code<S: WaitableOp>(
    pre: OperationView<S>,
    state: S::InProgress,
    code: u32,
    callback_ptr: usize,
    waker: Waker,
    post: OperationView<S>,
    step: PollStep<S::Cancel>,
)
    requires
        pre.state == WaitableOperationState::<S>::InProgress(state),
        pre.code == Some(code),
        !pre.cancelling,
        pre.poll_cancel(callback_ptr, waker, post, step),
    ensures
        ({
            ||| exists|op1: S, result: S::Result|
                {
                    &&& #[trigger] S::update_post(pre.op, state, code, op1, Ok(result))
                    &&& step is Ready
                    &&& S::into_cancel_post(op1, result, post.op, step->Ready_0)
                    &&& post.state is Done
                    &&& post.waker == pre.waker
                    &&& !post.cancelling
                }
            ||| exists|
                op1: S,
                state1: S::InProgress,
                op2: S,
                state2: S::InProgress,
                answer: u32,
                op3: S,
                last: Result<S::Result, S::InProgress>,
            |
                {
                    &&& #[trigger] S::update_post(pre.op, state, code, op1, Err(state1))
                    &&& #[trigger] S::cancel_post(op1, state1, op2, state2, answer)
                    &&& #[trigger] S::update_post(op2, state2, answer, op3, last)
                    &&& post.cancelling
                    &&& match last {
                        Ok(result) => {
                            &&& step is Ready
                            &&& S::into_cancel_post(op3, result, post.op, step->Ready_0)
                            &&& post.state is Done
                            &&& post.waker == pre.waker
                        },
                        Err(next) => {
                            &&& step == PollStep::<S::Cancel>::Pending(
                                (TaskCall {
                                    entry: TaskEntry::WaitableRegister,
                                    callback_ptr,
                                    waitable: S::waitable_of(next),
                                }),
                            )
                            &&& S::waitable_post(op3, next, post.op)
                            &&& post.state == WaitableOperationState::<S>::InProgress(next)
                            &&& post.waker == Some(waker)
                        },
                    }
                }
        }),
        post.code is None,
        post.detached == pre.detached,
{
    let me = OperationView { code: None, ..pre };
    if !(step is Ready && me.settle(code, post, step->Ready_0)) {
        let mid = choose|mid: OperationView<S>|
            {
                &&& #[trigger] me.apply_code(code, mid, Poll::Pending)
                &&& mid.request_cancel(callback_ptr, waker, post, step)
            };
        let state1 = mid.state->InProgress_0;
        assert(S::update_post(pre.op, state, code, mid.op, Err(state1)));
        poll_cancel_asks(mid, state1, callback_ptr, waker, post, step);
    }
}

/// A cancellation before the start hands the operation its initial state back.
pub proof fn cancel_not_started<S: WaitableOp>(
    pre: OperationView<S>,
    start: S::Start,
    callback_ptr: usize,
    post: OperationView<S>,
    step: CancelStep<S::Cancel>,
)
    requires
        pre.state == WaitableOperationState::<S>::Start(start),
        pre.cancel(callback_ptr, post, step),
    ensures
        step is Cancelled,
        S::start_cancelled_post(pre.op, start, post.op, step->Cancelled_0),
        post.state is Done,
        post.code == pre.code,
        post.waker == pre.waker,
        post.detached == pre.detached,
        post.cancelling == pre.cancelling,
{
}

/// A cancellation that finds no status code first takes back the registration
/// for the waitable that the operation waits on, and leaves the operation where
/// it is. Once it is finished, the operation has been asked to cancel, once, and
/// completed by the code that the request returned.
pub proof fn cancel_unregisters_then_asks<S: WaitableOp>(
    pre: OperationView<S>,
    state: S::InProgress,
    callback_ptr: usize,
    mid: OperationView<S>,
    step: CancelStep<S::Cancel>,
    post: OperationView<S>,
    cancel: S::Cancel,
)
    requires
        pre.state == WaitableOperationState::<S>::InProgress(state),
        pre.code is None,
        pre.cancel(callback_ptr, mid, step),
    ensures
        step == CancelStep::<S::Cancel>::Unregister(
            (TaskCall {
                entry: TaskEntry::WaitableUnregister,
                callback_ptr,
                waitable: S::waitable_of(state),
            }),
        ),
        S::waitable_post(pre.op, state, mid.op),
        mid.state == pre.state,
        mid.code is None,
        mid.waker == pre.waker,
        mid.detached == pre.detached,
        mid.cancelling == pre.cancelling,
        mid.finish_cancel(post, cancel) ==> exists|
            op1: S,
            state1: S::InProgress,
            answer: u32,
            op2: S,
            result: S::Result,
        |
            {
                &&& #[trigger] S::cancel_post(mid.op, state, op1, state1, answer)
                &&& #[trigger] S::update_post(op1, state1, answer, op2, Ok(result))
                &&& S::into_cancel_post(op2, result, post.op, cancel)
            },
        mid.finish_cancel(post, cancel) ==> {
            &&& post.state is Done
            &&& post.code is None
            &&& post.waker == pre.waker
            &&& post.detached == pre.detached
            &&& post.cancelling == pre.cancelling
        },
{
}

/// Finishing a cancellation asks the operation to cancel, once, and the code that
/// the request returned is the one that completes it.
pub proof fn finish_cancel_asks<S: WaitableOp>(
    pre: OperationView<S>,
    post: OperationView<S>,
    cancel: S::Cancel,
)
    requires
        pre.finish_cancel(post, cancel),
    ensures
        pre.state is InProgress,
        exists|op1: S, state1: S::InProgress, answer: u32, op2: S, result: S::Result|
            {
                &&& #[trigger] S::cancel_post(
                    pre.op,
                    pre.state->InProgress_0,
                    op1,
                    state1,
                    answer,
                )
                &&& #[trigger] S::update_post(op1, state1, answer, op2, Ok(result))
                &&& S::into_cancel_post(op2, result, post.op, cancel)
            },
        post.state is Done,
        post.code == pre.code,
        post.waker == pre.waker,
        post.detached == pre.detached,
        post.cancelling == pre.cancelling,
{
}

/// A cancellation looks at a delivered code before anything else. If the code
/// completes the operation, its result is the result of the cancellation. If
/// not, the operation is asked to cancel, once, and completed by the code that
/// the request returned.
pub proof fn cancel_applies_delivered_code<S: WaitableOp>(
    pre: OperationView<S>,
    state: S::InProgress,
    code: u32,
    callback_ptr: usize,
    post: OperationView<S>,
    step: CancelStep<S::Cancel>,
)
    requires
        pre.state == WaitableOperationState::<S>::InProgress(state),
        pre.code == Some(code),
        pre.cancel(callback_ptr, post, step),
    ensures
        step is Cancelled,
        ({
            ||| exists|op1: S, result: S::Result|
                {
                    &&& #[trigger] S::update_post(pre.op, state, code, op1, Ok(result))
                    &&& S::into_cancel_post(op1, result, post.op, step->Cancelled_0)
                }
            ||| exists|
                op1: S,
                state1: S::InProgress,
                op2: S,
                state2: S::InProgress,
                answer: u32,
                op3: S,
                result: S::Result,
            |
                {
                    &&& #[trigger] S::update_post(pre.op, state, code, op1, Err(state1))
                    &&& #[trigger] S::cancel_post(op1, state1, op2, state2, answer)
                    &&& #[trigger] S::update_post(op2, state2, answer, op3, Ok(result))
                    &&& S::into_cancel_post(op3, result, post.op, step->Cancelled_0)
                }
        }),
        post.state is Done,
        post.code is None,
        post.waker == pre.waker,
        post.detached == pre.detached,
        post.cancelling == pre.cancelling,
{
    let me = OperationView { code: None, ..pre };
    let cancel = step->Cancelled_0;
    if !me.settle(code, post, cancel) {
        let mid = choose|mid: OperationView<S>|
            {
                &&& #[trigger] me.apply_code(code, mid, Poll::Pending)
                &&& mid.finish_cancel(post, cancel)
            };
        assert(S::update_post(pre.op, state, code, mid.op, Err(mid.state->InProgress_0)));
        finish_cancel_asks(mid, post, cancel);
    }
}

/// A code for an operation without an owner is handed to it as it is. The
/// operation is to be freed exactly if that completes it, and is registered for
/// the waitable of the state it answered with otherwise.
pub proof fn detached_code_reaches_operation<S: WaitableOp>(
    pre: OperationView<S>,
    state: S::InProgress,
    callback_ptr: usize,
    code: u32,
    post: OperationView<S>,
    release: Release,
)
    requires
        pre.state == WaitableOperationState::<S>::InProgress(state),
        pre.on_detached_code(callback_ptr, code, post, release),
    ensures
        exists|op1: S, outcome: Result<S::Result, S::InProgress>|
            {
                &&& #[trigger] S::update_post(pre.op, state, code, op1, outcome)
                &&& match outcome {
                    Ok(_) => {
                        &&& release is Free
                        &&& post.op == op1
                        &&& post.state is Done
                    },
                    Err(next) => {
                        &&& release == Release::Register(
                            (TaskCall {
                                entry: TaskEntry::WaitableRegister,
                                callback_ptr,
                                waitable: S::waitable_of(next),
                            }),
                        )
                        &&& S::waitable_post(op1, next, post.op)
                        &&& post.state == WaitableOperationState::<S>::InProgress(next)
                    },
                }
            },
        post.code == pre.code,
        post.waker == pre.waker,
        post.detached == pre.detached,
        post.cancelling == pre.cancelling,
{
}

/// A code from the host for an operation with an owner is kept as it is, the
/// waker is taken, and nothing else changes.
pub proof fn wake_with_owner<S: WaitableOp>(
    pre: OperationView<S>,
    callback_ptr: usize,
    code: u32,
    post: OperationView<S>,
    step: WakeStep,
)
    requires
        !pre.detached,
        pre.cabi_wake(callback_ptr, code, post, step),
    ensures
        step == WakeStep::Wake(pre.waker),
        post.code == Some(code),
        post.waker is None,
        post.op == pre.op,
        post.state == pre.state,
        !post.detached,
        post.cancelling == pre.cancelling,
{
}

/// A code from the host for a detached operation is handed to it as it is. The
/// operation is to be freed exactly if that completes it, and is registered for
/// the waitable of the state it answered with otherwise.
pub proof fn wake_without_owner<S: WaitableOp>(
    pre: OperationView<S>,
    state: S::InProgress,
    callback_ptr: usize,
    code: u32,
    post: OperationView<S>,
    step: WakeStep,
)
    requires
        pre.state == WaitableOperationState::<S>::InProgress(state),
        pre.detached,
        pre.cabi_wake(callback_ptr, code, post, step),
    ensures
        exists|op1: S, outcome: Result<S::Result, S::InProgress>|
            {
                &&& #[trigger] S::update_post(pre.op, state, code, op1, outcome)
                &&& match outcome {
                    Ok(_) => {
                        &&& step == WakeStep::Detached(Release::Free)
                        &&& post.op == op1
                        &&& post.state is Done
                    },
                    Err(next) => {
                        &&& step == WakeStep::Detached(
                            Release::Register(
                                (TaskCall {
                                    entry: TaskEntry::WaitableRegister,
                                    callback_ptr,
                                    waitable: S::waitable_of(next),
                                }),
                            ),
                        )
                        &&& S::waitable_post(op1, next, post.op)
                        &&& post.state == WaitableOperationState::<S>::InProgress(next)
                    },
                }
            },
        post.code == pre.code,
        post.waker == pre.waker,
        post.detached,
        post.cancelling == pre.cancelling,
{
}

/// Detaching calls nothing of the operation unless there is a status code. An
/// operation in progress then keeps waiting; any other one is to be freed.
pub proof fn detach_without_code<S: WaitableOp>(
    pre: OperationView<S>,
    callback_ptr: usize,
    post: OperationView<S>,
    release: Release,
)
    requires
        pre.state is InProgress ==> pre.code is None,
        pre.detach(callback_ptr, post, release),
    ensures
        pre.state is InProgress ==> release is Waiting,
        pre.state !is InProgress ==> release is Free,
        post.op == pre.op,
        post.state == pre.state,
        post.code == pre.code,
        post.waker is None,
        post.detached,
        post.cancelling == pre.cancelling,
{
}

/// Detaching hands a delivered code to the operation as it is. The operation is
/// to be freed exactly if that completes it, and is registered for the waitable
/// of the state it answered with otherwise.
pub proof fn detach_applies_delivered_code<S: WaitableOp>(
    pre: OperationView<S>,
    state: S::InProgress,
    code: u32,
    callback_ptr: usize,
    post: OperationView<S>,
    release: Release,
)
    requires
        pre.state == WaitableOperationState::<S>::InProgress(state),
        pre.code == Some(code),
        pre.detach(callback_ptr, post, release),
    ensures
        exists|op1: S, outcome: Result<S::Result, S::InProgress>|
            {
                &&& #[trigger] S::update_post(pre.op, state, code, op1, outcome)
                &&& match outcome {
                    Ok(_) => {
                        &&& release is Free
                        &&& post.op == op1
                        &&& post.state is Done
                    },
                    Err(next) => {
                        &&& release == Release::Register(
                            (TaskCall {
                                entry: TaskEntry::WaitableRegister,
                                callback_ptr,
                                waitable: S::waitable_of(next),
                            }),
                        )
                        &&& S::waitable_post(op1, next, post.op)
                        &&& post.state == WaitableOperationState::<S>::InProgress(next)
                    },
                }
            },
        post.code is None,
        post.waker is None,
        post.detached,
        post.cancelling == pre.cancelling,
{
}

/// A drop never has an operation freed that is still in progress: what is freed
/// is done, or was never started.
pub proof fn drop_frees_nothing_in_progress<S: WaitableOp>(
    pre: OperationView<S>,
    detach: bool,
    callback_ptr: usize,
    post: OperationView<S>,
    step: DropStep,
)
    requires
        pre.drop(detach, callback_ptr, post, step),
    ensures
        step == DropStep::Released(Release::Free) ==> {
            ||| post.state is Done
            ||| pre.state is Start && post.state == pre.state && post.op == pre.op
        },
        step != DropStep::Released(Release::Free) ==> post.state is InProgress,
        step is Released && step->Released_0 !is Free ==> detach && post.detached,
        step is Unregister ==> !detach && post.detached == pre.detached,
{
}

/// The drop of an operation that is done leaves it as it is and has it freed.
pub proof fn drop_done<S: WaitableOp>(
    pre: OperationView<S>,
    detach: bool,
    callback_ptr: usize,
    post: OperationView<S>,
    step: DropStep,
)
    requires
        pre.state is Done,
        pre.drop(detach, callback_ptr, post, step),
    ensures
        step == DropStep::Released(Release::Free),
        post == pre,
{
}

/// The drop of an operation that was not started has it freed. It is told only
/// if it may not be detached, and is never started.
pub proof fn drop_not_started<S: WaitableOp>(
    pre: OperationView<S>,
    start: S::Start,
    detach: bool,
    callback_ptr: usize,
    post: OperationView<S>,
    step: DropStep,
)
    requires
        pre.state == WaitableOperationState::<S>::Start(start),
        pre.drop(detach, callback_ptr, post, step),
    ensures
        step == DropStep::Released(Release::Free),
        detach ==> post.op == pre.op && post.state == pre.state,
        !detach ==> exists|cancel: S::Cancel| #[trigger]
            S::start_cancelled_post(pre.op, start, post.op, cancel),
        !detach ==> post.state is Done,
        detach ==> post.detached && post.waker is None,
        !detach ==> post.detached == pre.detached && post.waker == pre.waker,
        post.code == pre.code,
        post.cancelling == pre.cancelling,
{
}

/// The drop of an operation that waits for the host leaves it waiting if it may
/// be detached. If not, the registration for the waitable that it waits on is
/// taken back first; once the drop is finished, the operation has been asked to
/// cancel, once, and completed by the code that the request returned.
pub proof fn drop_waiting<S: WaitableOp>(
    pre: OperationView<S>,
    state: S::InProgress,
    detach: bool,
    callback_ptr: usize,
    post: OperationView<S>,
    step: DropStep,
)
    requires
        pre.state == WaitableOperationState::<S>::InProgress(state),
        pre.code is None,
        pre.drop(detach, callback_ptr, post, step),
    ensures
        detach ==> {
            &&& step == DropStep::Released(Release::Waiting)
            &&& post.op == pre.op
            &&& post.waker is None
            &&& post.detached
        },
        !detach ==> {
            &&& step == DropStep::Unregister(
                (TaskCall {
                    entry: TaskEntry::WaitableUnregister,
                    callback_ptr,
                    waitable: S::waitable_of(state),
                }),
            )
            &&& S::waitable_post(pre.op, state, post.op)
            &&& post.waker == pre.waker
            &&& post.detached == pre.detached
        },
        post.state == pre.state,
        post.code is None,
        post.cancelling == pre.cancelling,
{
}

/// A drop does not lose a delivered code: the operation is handed that very
/// code. If it may be detached, it is to be freed exactly if the code completes
/// it, and is registered for the waitable of the state it answered with
/// otherwise. If it may not, it is asked to cancel after a code that does not
/// complete it, and is to be freed either way.
pub proof fn drop_applies_delivered_code<S: WaitableOp>(
    pre: OperationView<S>,
    state: S::InProgress,
    code: u32,
    detach: bool,
    callback_ptr: usize,
    post: OperationView<S>,
    step: DropStep,
)
    requires
        pre.state == WaitableOperationState::<S>::InProgress(state),
        pre.code == Some(code),
        pre.drop(detach, callback_ptr, post, step),
    ensures
        detach ==> exists|op1: S, outcome: Result<S::Result, S::InProgress>|
            {
                &&& #[trigger] S::update_post(pre.op, state, code, op1, outcome)
                &&& match outcome {
                    Ok(_) => {
                        &&& step == DropStep::Released(Release::Free)
                        &&& post.op == op1
                        &&& post.state is Done
                    },
                    Err(next) => {
                        &&& step == DropStep::Released(
                            Release::Register(
                                (TaskCall {
                                    entry: TaskEntry::WaitableRegister,
                                    callback_ptr,
                                    waitable: S::waitable_of(next),
                                }),
                            ),
                        )
                        &&& S::waitable_post(op1, next, post.op)
                        &&& post.state == WaitableOperationState::<S>::InProgress(next)
                    },
                }
            },
        detach ==> post.detached && post.waker is None,
        !detach ==> {
            ||| exists|op1: S, result: S::Result, cancel: S::Cancel|
                {
                    &&& #[trigger] S::update_post(pre.op, state, code, op1, Ok(result))
                    &&& #[trigger] S::into_cancel_post(op1, result, post.op, cancel)
                }
            ||| exists|
                op1: S,
                state1: S::InProgress,
                op2: S,
                state2: S::InProgress,
                answer: u32,
                op3: S,
                result: S::Result,
                cancel: S::Cancel,
            |
                {
                    &&& #[trigger] S::update_post(pre.op, state, code, op1, Err(state1))
                    &&& #[trigger] S::cancel_post(op1, state1, op2, state2, answer)
                    &&& #[trigger] S::update_post(op2, state2, answer, op3, Ok(result))
                    &&& #[trigger] S::into_cancel_post(op3, result, post.op, cancel)
                }
        },
        !detach ==> step == DropStep::Released(Release::Free) && post.state is Done,
        !detach ==> post.detached == pre.detached && post.waker == pre.waker,
        post.code is None,
        post.cancelling == pre.cancelling,
{
    if !detach {
        let cancel = choose|cancel: S::Cancel| #[trigger]
            pre.cancel(callback_ptr, post, CancelStep::Cancelled(cancel));
        cancel_applies_delivered_code(
            pre,
            state,
            code,
            callback_ptr,
            post,
            CancelStep::Cancelled(cancel),
        );
    }
}

/// An operation at rest with an owner can be polled unless it is done or was
/// asked to cancel.
pub proof fn owned_can_be_polled<S: WaitableOp>(view: OperationView<S>)
    requires
        view.owned(),
        view.state !is Done,
        !view.cancelling,
    ensures
        view.can_poll_complete(),
{
}

/// If asking the operation to cancel always completes it, then it can be
/// cancelled, in one go or in two, at any time before it is done.
pub proof fn synchronous_can_be_cancelled<S: WaitableOp>(view: OperationView<S>)
    requires
        forall|
            op: S,
            state: S::InProgress,
            op1: S,
            state1: S::InProgress,
            answer: u32,
            op2: S,
            outcome: Result<S::Result, S::InProgress>,
        |
            {
                &&& #[trigger] S::cancel_post(op, state, op1, state1, answer)
                &&& #[trigger] S::update_post(op1, state1, answer, op2, outcome)
            } ==> outcome is Ok,
        view.state !is Done,
    ensures
        view.can_cancel(),
        view.state is InProgress ==> view.can_finish_cancel(),
{
}

} // verus!
