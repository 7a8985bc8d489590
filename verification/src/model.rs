//! An operation as a mathematical value, and the relations between the value
//! before and the value after each of its functions.

use std::task::Waker;
use vstd::prelude::*;

use crate::cabi::TaskCall;
use crate::op::WaitableOp;
use crate::step::{CancelStep, DropStep, Poll, PollStep, Release, WakeStep};

verus! {

/// How far an operation has come.
pub enum WaitableOperationState<S: WaitableOp> {
    /// It has not been started.
    Start(S::Start),
    /// It has been started, and has not completed.
    InProgress(S::InProgress),
    /// Its result has been handed out.
    Done,
}

/// All there is to know of an operation.
pub struct OperationView<S: WaitableOp> {
    /// The operation itself.
    pub op: S,
    /// How far it has come.
    pub state: WaitableOperationState<S>,
    /// The status code that the host delivered and nobody has looked at yet.
    pub code: Option<u32>,
    /// The waker to wake when the host delivers a status code.
    pub waker: Option<Waker>,
    /// Whether its owner has gone.
    pub detached: bool,
    /// Whether its owner has asked for asynchronous cancellation.
    pub cancelling: bool,
}

impl<S: WaitableOp> OperationView<S> {
    /// An operation that was just made.
    pub open spec fn fresh(op: S, state: S::Start) -> Self {
        OperationView {
            op,
            state: WaitableOperationState::Start(state),
            code: None,
            waker: None,
            detached: false,
            cancelling: false,
        }
    }

    /// What holds of an operation that has an owner, whenever it is at rest. In
    /// particular, one in progress has either a status code for the owner to
    /// find or a waker to tell the owner with, and never both.
    pub open spec fn owned(self) -> bool {
        &&& !self.detached
        &&& match self.state {
            WaitableOperationState::Start(_) => {
                &&& self.code is None
                &&& self.waker is None
                &&& !self.cancelling
            },
            WaitableOperationState::InProgress(_) => self.code is None <==> self.waker is Some,
            WaitableOperationState::Done => true,
        }
    }

    /// What holds of an operation whose owner has gone, whenever it is at rest
    /// and not to be freed: it is in progress, and all it waits for is the host.
    pub open spec fn orphaned(self) -> bool {
        &&& self.detached
        &&& self.state is InProgress
        &&& self.code is None
        &&& self.waker is None
    }

    /// The waitables that an operation waits for the host to report on.
    pub open spec fn awaited(self) -> Set<u32> {
        match (self.state, self.code) {
            (WaitableOperationState::InProgress(in_progress), None) => set![
                S::waitable_of(in_progress),
            ],
            _ => Set::empty(),
        }
    }

    /// An operation in progress is given a status code.
    pub open spec fn apply_code(self, code: u32, post: Self, outcome: Poll<S::Result>) -> bool {
        &&& self.state is InProgress
        &&& post == (OperationView { op: post.op, state: post.state, ..self })
        &&& match outcome {
            Poll::Ready(result) => {
                &&& post.state is Done
                &&& S::update_post(
                    self.op,
                    self.state->InProgress_0,
                    code,
                    post.op,
                    Ok(result),
                )
            },
            Poll::Pending => {
                &&& post.state is InProgress
                &&& S::update_post(
                    self.op,
                    self.state->InProgress_0,
                    code,
                    post.op,
                    Err(post.state->InProgress_0),
                )
            },
        }
    }

    /// An operation in progress is asked for its waitable.
    pub open spec fn waitable(self, post: Self, waitable: u32) -> bool {
        &&& self.state is InProgress
        &&& post == (OperationView { op: post.op, ..self })
        &&& S::waitable_post(self.op, self.state->InProgress_0, post.op)
        &&& waitable == S::waitable_of(self.state->InProgress_0)
    }

    /// An operation in progress is asked to cancel.
    pub open spec fn cancel_code(self, post: Self, code: u32) -> bool {
        &&& self.state is InProgress
        &&& post.state is InProgress
        &&& post == (OperationView { op: post.op, state: post.state, ..self })
        &&& S::cancel_post(
            self.op,
            self.state->InProgress_0,
            post.op,
            post.state->InProgress_0,
            code,
        )
    }

    /// A result is turned into the result of a cancellation.
    pub open spec fn into_cancel(self, result: S::Result, post: Self, cancel: S::Cancel) -> bool {
        &&& post == (OperationView { op: post.op, ..self })
        &&& S::into_cancel_post(self.op, result, post.op, cancel)
    }

    /// An operation that was not started is cancelled.
    pub open spec fn start_cancelled(self, post: Self, cancel: S::Cancel) -> bool {
        &&& self.state is Start
        &&& post == (OperationView {
            op: post.op,
            state: WaitableOperationState::Done,
            ..self
        })
        &&& S::start_cancelled_post(self.op, self.state->Start_0, post.op, cancel)
    }

    /// An operation in progress goes to sleep until the host has news.
    pub open spec fn suspend(
        self,
        callback_ptr: usize,
        waker: Waker,
        post: Self,
        call: TaskCall,
    ) -> bool {
        &&& self.state is InProgress
        &&& post == (OperationView { op: post.op, waker: Some(waker), ..self })
        &&& S::waitable_post(self.op, self.state->InProgress_0, post.op)
        &&& call == TaskCall::register(callback_ptr, S::waitable_of(self.state->InProgress_0))
    }

    /// An operation in progress is given a status code, and goes to sleep if
    /// that does not complete it.
    pub open spec fn complete_with(
        self,
        code: u32,
        callback_ptr: usize,
        waker: Waker,
        post: Self,
        step: PollStep<S::Result>,
    ) -> bool {
        match step {
            PollStep::Ready(result) => self.apply_code(code, post, Poll::Ready(result)),
            PollStep::Pending(call) => exists|mid: Self|
                {
                    &&& #[trigger] self.apply_code(code, mid, Poll::Pending)
                    &&& mid.suspend(callback_ptr, waker, post, call)
                },
        }
    }

    /// See `WaitableOperation::poll_complete`.
    pub open spec fn poll_complete(
        self,
        callback_ptr: usize,
        waker: Waker,
        post: Self,
        step: PollStep<S::Result>,
    ) -> bool {
        match self.state {
            WaitableOperationState::Start(start) => exists|
                op: S,
                code: u32,
                in_progress: S::InProgress,
            |
                {
                    &&& #[trigger] S::start_post(self.op, start, op, code, in_progress)
                    &&& OperationView {
                        op,
                        state: WaitableOperationState::InProgress(in_progress),
                        ..self
                    }.complete_with(code, callback_ptr, waker, post, step)
                },
            WaitableOperationState::InProgress(_) => match self.code {
                Some(code) => OperationView { code: None, ..self }.complete_with(
                    code,
                    callback_ptr,
                    waker,
                    post,
                    step,
                ),
                None => {
                    &&& step is Pending
                    &&& self.suspend(callback_ptr, waker, post, step->Pending_0)
                },
            },
            WaitableOperationState::Done => false,
        }
    }

    /// Whether starting an operation completes it, whatever comes back.
    pub open spec fn starts_synchronously(op: S, start: S::Start) -> bool {
        forall|
            op1: S,
            code: u32,
            in_progress: S::InProgress,
            op2: S,
            outcome: Result<S::Result, S::InProgress>,
        |
            {
                &&& #[trigger] S::start_post(op, start, op1, code, in_progress)
                &&& #[trigger] S::update_post(op1, in_progress, code, op2, outcome)
            } ==> outcome is Ok
    }

    /// Whether `poll_complete` is sure not to go to sleep on a status code that
    /// nobody has looked at: one that came before the start must find the
    /// operation completed by the start.
    pub open spec fn can_poll_complete(self) -> bool {
        &&& !self.cancelling
        &&& match self.state {
            WaitableOperationState::Start(start) => self.code is Some
                ==> Self::starts_synchronously(self.op, start),
            WaitableOperationState::InProgress(_) => true,
            WaitableOperationState::Done => false,
        }
    }

    /// An operation in progress is completed by a status code, and its result
    /// turned into the result of a cancellation.
    pub open spec fn settle(self, code: u32, post: Self, cancel: S::Cancel) -> bool {
        exists|mid: Self, result: S::Result|
            {
                &&& #[trigger] self.apply_code(code, mid, Poll::Ready(result))
                &&& mid.into_cancel(result, post, cancel)
            }
    }

    /// See `WaitableOperation::finish_cancel`.
    pub open spec fn finish_cancel(self, post: Self, cancel: S::Cancel) -> bool {
        exists|mid: Self, code: u32|
            {
                &&& #[trigger] self.cancel_code(mid, code)
                &&& mid.settle(code, post, cancel)
            }
    }

    /// See `WaitableOperation::cancel`.
    pub open spec fn cancel(
        self,
        callback_ptr: usize,
        post: Self,
        step: CancelStep<S::Cancel>,
    ) -> bool {
        match (self.state, self.code, step) {
            (WaitableOperationState::Start(_), _, CancelStep::Cancelled(cancel)) => {
                self.start_cancelled(post, cancel)
            },
            (
                WaitableOperationState::InProgress(_),
                Some(code),
                CancelStep::Cancelled(cancel),
            ) => {
                let me = OperationView { code: None, ..self };
                ||| me.settle(code, post, cancel)
                ||| exists|mid: Self|
                    {
                        &&& #[trigger] me.apply_code(code, mid, Poll::Pending)
                        &&& mid.finish_cancel(post, cancel)
                    }
            },
            (
                WaitableOperationState::InProgress(in_progress),
                None,
                CancelStep::Unregister(call),
            ) => {
                let waitable = S::waitable_of(in_progress);
                &&& self.waitable(post, waitable)
                &&& call == TaskCall::unregister(callback_ptr, waitable)
            },
            _ => false,
        }
    }

    /// Whether asking an operation in progress to cancel completes it, whatever
    /// comes back.
    pub open spec fn cancels_synchronously(op: S, in_progress: S::InProgress) -> bool {
        forall|
            op1: S,
            in_progress1: S::InProgress,
            code: u32,
            op2: S,
            outcome: Result<S::Result, S::InProgress>,
        |
            {
                &&& #[trigger] S::cancel_post(op, in_progress, op1, in_progress1, code)
                &&& #[trigger] S::update_post(op1, in_progress1, code, op2, outcome)
            } ==> outcome is Ok
    }

    /// Whether `cancel` is sure to come to an end: should a status code leave
    /// the operation in progress, asking it to cancel has to complete it.
    pub open spec fn can_cancel(self) -> bool {
        match (self.state, self.code) {
            (WaitableOperationState::Start(_), _) => true,
            (WaitableOperationState::InProgress(in_progress), Some(code)) => forall|
                op: S,
                next: S::InProgress,
            | #[trigger]
                S::update_post(self.op, in_progress, code, op, Err(next))
                    ==> Self::cancels_synchronously(op, next),
            (WaitableOperationState::InProgress(_), None) => true,
            (WaitableOperationState::Done, _) => false,
        }
    }

    /// Whether `finish_cancel` is sure to come to an end.
    pub open spec fn can_finish_cancel(self) -> bool {
        &&& self.state is InProgress
        &&& Self::cancels_synchronously(self.op, self.state->InProgress_0)
    }

    /// An operation in progress answers a request for cancellation with a
    /// status code, and goes to sleep if that does not complete it.
    pub open spec fn cancel_with(
        self,
        code: u32,
        callback_ptr: usize,
        waker: Waker,
        post: Self,
        step: PollStep<S::Cancel>,
    ) -> bool {
        match step {
            PollStep::Ready(cancel) => self.settle(code, post, cancel),
            PollStep::Pending(call) => exists|mid: Self|
                {
                    &&& #[trigger] self.apply_code(code, mid, Poll::Pending)
                    &&& mid.suspend(callback_ptr, waker, post, call)
                },
        }
    }

    /// An operation in progress is asked to cancel unless it was before, and
    /// goes to sleep if that does not complete it.
    pub open spec fn request_cancel(
        self,
        callback_ptr: usize,
        waker: Waker,
        post: Self,
        step: PollStep<S::Cancel>,
    ) -> bool {
        if self.cancelling {
            &&& step is Pending
            &&& self.suspend(callback_ptr, waker, post, step->Pending_0)
        } else {
            exists|mid: Self, code: u32|
                {
                    &&& #[trigger] OperationView { cancelling: true, ..self }.cancel_code(mid, code)
                    &&& mid.cancel_with(code, callback_ptr, waker, post, step)
                }
        }
    }

    /// See `WaitableOperation::poll_cancel`.
    pub open spec fn poll_cancel(
        self,
        callback_ptr: usize,
        waker: Waker,
        post: Self,
        step: PollStep<S::Cancel>,
    ) -> bool {
        match (self.state, self.code) {
            (WaitableOperationState::Start(_), _) => {
                &&& step is Ready
                &&& self.start_cancelled(post, step->Ready_0)
            },
            (WaitableOperationState::InProgress(_), Some(code)) => {
                let me = OperationView { code: None, ..self };
                ||| step is Ready && me.settle(code, post, step->Ready_0)
                ||| exists|mid: Self|
                    {
                        &&& #[trigger] me.apply_code(code, mid, Poll::Pending)
                        &&& mid.request_cancel(callback_ptr, waker, post, step)
                    }
            },
            (WaitableOperationState::InProgress(_), None) => {
                self.request_cancel(callback_ptr, waker, post, step)
            },
            (WaitableOperationState::Done, _) => false,
        }
    }

    /// See `OperationInner::on_detached_code`.
    pub open spec fn on_detached_code(
        self,
        callback_ptr: usize,
        code: u32,
        post: Self,
        release: Release,
    ) -> bool {
        match release {
            Release::Free => exists|result: S::Result| #[trigger]
                self.apply_code(code, post, Poll::Ready(result)),
            Release::Waiting => false,
            Release::Register(call) => exists|mid: Self|
                {
                    &&& #[trigger] self.apply_code(code, mid, Poll::Pending)
                    &&& mid.waitable(post, call.waitable)
                    &&& call == TaskCall::register(callback_ptr, call.waitable)
                },
        }
    }

    /// See `WaitableOperation::detach`.
    pub open spec fn detach(self, callback_ptr: usize, post: Self, release: Release) -> bool {
        let me = OperationView { detached: true, waker: None, ..self };
        match (self.state, self.code) {
            (WaitableOperationState::InProgress(_), Some(code)) => OperationView {
                code: None,
                ..me
            }.on_detached_code(callback_ptr, code, post, release),
            (WaitableOperationState::InProgress(_), None) => {
                &&& post == me
                &&& release is Waiting
            },
            _ => {
                &&& post == me
                &&& release is Free
            },
        }
    }

    /// See `WaitableOperation::drop`. Whether the operation may be detached is
    /// for it to say.
    pub open spec fn drop(
        self,
        detach: bool,
        callback_ptr: usize,
        post: Self,
        step: DropStep,
    ) -> bool {
        if self.state is Done {
            &&& post == self
            &&& step == DropStep::Released(Release::Free)
        } else if detach {
            &&& step is Released
            &&& self.detach(callback_ptr, post, step->Released_0)
        } else {
            match step {
                DropStep::Released(release) => {
                    &&& release is Free
                    &&& exists|cancel: S::Cancel| #[trigger]
                        self.cancel(callback_ptr, post, CancelStep::Cancelled(cancel))
                },
                DropStep::Unregister(call) => {
                    self.cancel(callback_ptr, post, CancelStep::Unregister(call))
                },
            }
        }
    }

    /// See `cabi_wake`.
    pub open spec fn cabi_wake(
        self,
        callback_ptr: usize,
        code: u32,
        post: Self,
        step: WakeStep,
    ) -> bool {
        if self.detached {
            &&& step is Detached
            &&& self.on_detached_code(callback_ptr, code, post, step->Detached_0)
        } else {
            &&& step == WakeStep::Wake(self.waker)
            &&& post == (OperationView { code: Some(code), waker: None, ..self })
        }
    }
}

} // verus!
