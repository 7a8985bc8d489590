//! Generic support for "any waitable" and performing asynchronous operations on
//! that waitable.

use std::task::Waker;
use vstd::prelude::*;

use crate::cabi::TaskCall;
use crate::model::{OperationView, WaitableOperationState};
use crate::op::WaitableOp;
use crate::step::{CancelStep, DropStep, Poll, PollStep, Release, WakeStep};

verus! {

/// Generic operation on any "waitable" in the component model.
///
/// This structure is driven by `S`, an implementation of [`WaitableOp`], which
/// codifies the various state transitions and what to do on each of them.
pub struct WaitableOperation<S: WaitableOp> {
    inner: OperationInner<S>,
}

/// The part of an operation that the host calls back into.
pub struct OperationInner<S: WaitableOp> {
    op: S,
    state: WaitableOperationState<S>,
    /// Storage for the status code of this asynchronous operation, if it's
    /// delivered asynchronously.
    completion_status: CompletionStatus,
    detached: bool,
    cancelling: bool,
}

/// Structure used to store the `u32` status code from the canonical ABI about
/// an asynchronous operation.
struct CompletionStatus {
    /// Where the async operation's code is filled in, and `None` until that
    /// happens.
    code: Option<u32>,
    waker: Option<Waker>,
}

impl<S: WaitableOp> View for OperationInner<S> {
    type V = OperationView<S>;

    closed spec fn view(&self) -> OperationView<S> {
        OperationView {
            op: self.op,
            state: self.state,
            code: self.completion_status.code,
            waker: self.completion_status.waker,
            detached: self.detached,
            cancelling: self.cancelling,
        }
    }
}

impl<S: WaitableOp> View for WaitableOperation<S> {
    type V = OperationView<S>;

    closed spec fn view(&self) -> OperationView<S> {
        self.inner@
    }
}

impl<S: WaitableOp> OperationInner<S> {
    /// Takes the state to start from out of an operation that was not started.
    fn take_start(&mut self) -> (start: S::Start)
        requires
            old(self)@.state is Start,
        ensures
            start == old(self)@.state->Start_0,
            final(self)@ == (OperationView {
                state: WaitableOperationState::Done,
                ..old(self)@
            }),
    {
        let mut state = WaitableOperationState::Done;
        std::mem::swap(&mut self.state, &mut state);
        match state {
            WaitableOperationState::Start(start) => start,
            _ => vstd::pervasive::unreached(),
        }
    }

    /// Asks the operation which waitable it is waiting on.
    fn waitable(&mut self) -> (waitable: u32)
        requires
            old(self)@.state is InProgress,
        ensures
            old(self)@.waitable(final(self)@, waitable),
    {
        match &self.state {
            WaitableOperationState::InProgress(in_progress) => self.op.in_progress_waitable(
                in_progress,
            ),
            _ => vstd::pervasive::unreached(),
        }
    }

    /// Asks the operation to cancel, and returns the status code of that.
    fn cancel_code(&mut self) -> (code: u32)
        requires
            old(self)@.state is InProgress,
        ensures
            old(self)@.cancel_code(final(self)@, code),
    {
        match &mut self.state {
            WaitableOperationState::InProgress(in_progress) => self.op.in_progress_cancel(
                in_progress,
            ),
            _ => vstd::pervasive::unreached(),
        }
    }

    /// Hands a status code to the operation, which completes or goes on.
    fn apply_code(&mut self, code: u32) -> (outcome: Poll<S::Result>)
        requires
            old(self)@.state is InProgress,
        ensures
            old(self)@.apply_code(code, final(self)@, outcome),
    {
        let mut state = WaitableOperationState::Done;
        std::mem::swap(&mut self.state, &mut state);
        let WaitableOperationState::InProgress(in_progress) = state else {
            vstd::pervasive::unreached()
        };
        match self.op.in_progress_update(in_progress, code) {
            Ok(result) => Poll::Ready(result),
            Err(in_progress) => {
                self.state = WaitableOperationState::InProgress(in_progress);
                Poll::Pending
            },
        }
    }

    /// Hands a status code to an operation without an owner. One that completes
    /// is to be freed, and its result is lost; one that goes on has to be
    /// registered again.
    pub fn on_detached_code(&mut self, callback_ptr: usize, code: u32) -> (release: Release)
        requires
            old(self)@.state is InProgress,
        ensures
            old(self)@.on_detached_code(callback_ptr, code, final(self)@, release),
            old(self)@.orphaned() && release !is Free ==> final(self)@.orphaned(),
    {
        match self.apply_code(code) {
            Poll::Ready(_) => Release::Free,
            Poll::Pending => {
                let waitable: u32 = self.waitable();
                Release::Register(TaskCall::register_raw(callback_ptr, waitable))
            },
        }
    }
}

/// Takes a status code from the host.
pub fn cabi_wake<S: WaitableOp>(
    me: &mut OperationInner<S>,
    callback_ptr: usize,
    code: u32,
) -> (step: WakeStep)
    requires
        old(me)@.detached ==> old(me)@.state is InProgress,
    ensures
        old(me)@.cabi_wake(callback_ptr, code, final(me)@, step),
        old(me)@.owned() && old(me)@.state !is Start ==> final(me)@.owned(),
        old(me)@.orphaned() && step != WakeStep::Detached(Release::Free) ==> final(me)@.orphaned(),
{
    if me.detached {
        WakeStep::Detached(me.on_detached_code(callback_ptr, code))
    } else {
        me.completion_status.code = Some(code);
        WakeStep::Wake(me.completion_status.waker.take())
    }
}

impl<S: WaitableOp> WaitableOperation<S> {
    /// Creates a new operation in the initial state.
    pub fn new(op: S, state: S::Start) -> (operation: WaitableOperation<S>)
        ensures
            operation@ == OperationView::fresh(op, state),
            operation@.owned(),
            operation@.op == op,
            operation@.state == WaitableOperationState::<S>::Start(state),
            operation@.code is None,
            operation@.waker is None,
            !operation@.detached,
            !operation@.cancelling,
    {
        WaitableOperation {
            inner: OperationInner {
                op,
                state: WaitableOperationState::Start(state),
                completion_status: CompletionStatus { code: None, waker: None },
                detached: false,
                cancelling: false,
            },
        }
    }

    /// The part of this operation that the host calls back into.
    pub fn inner_mut(&mut self) -> (inner: &mut OperationInner<S>)
        ensures
            inner@ == old(self)@,
            final(self)@ == final(inner)@,
    {
        &mut self.inner
    }

    /// Has the host call back, with `callback_ptr`, when `waitable` has an
    /// event, and `waker` woken then.
    ///
    /// A status code that was delivered before has to be dealt with first.
    pub fn register_waker(&mut self, waitable: u32, callback_ptr: usize, waker: Waker) -> (call:
        TaskCall)
        requires
            old(self)@.code is None,
        ensures
            final(self)@ == (OperationView { waker: Some(waker), ..old(self)@ }),
            call == TaskCall::register(callback_ptr, waitable),
            call.entry is WaitableRegister,
            call.callback_ptr == callback_ptr,
            call.waitable == waitable,
    {
        self.inner.completion_status.waker = Some(waker);
        TaskCall::register_raw(callback_ptr, waitable)
    }

    /// Undoes a `register_waker` for the `waitable` passed here. The waker is
    /// kept.
    pub fn unregister_waker(&mut self, waitable: u32, callback_ptr: usize) -> (call: TaskCall)
        ensures
            final(self)@ == old(self)@,
            call == TaskCall::unregister(callback_ptr, waitable),
            call.entry is WaitableUnregister,
            call.callback_ptr == callback_ptr,
            call.waitable == waitable,
    {
        TaskCall::unregister_raw(callback_ptr, waitable)
    }

    /// Polls this operation to see if it has completed yet.
    ///
    /// The first poll starts the operation. An operation that is done, or that
    /// was asked to cancel asynchronously, cannot be polled. A status code that
    /// was delivered before the start is no obstacle if the start completes the
    /// operation.
    pub fn poll_complete(&mut self, callback_ptr: usize, waker: Waker) -> (step: PollStep<
        S::Result,
    >)
        requires
            old(self)@.can_poll_complete(),
        ensures
            old(self)@.poll_complete(callback_ptr, waker, final(self)@, step),
            step is Ready <==> final(self)@.state is Done,
            old(self)@.owned() ==> final(self)@.owned(),
    {
        let optional_code: Option<u32> = match &self.inner.state {
            WaitableOperationState::Start(_) => {
                let start = self.inner.take_start();
                let (code, in_progress) = self.inner.op.start(start);
                self.inner.state = WaitableOperationState::InProgress(in_progress);
                Some(code)
            },
            WaitableOperationState::InProgress(_) => self.inner.completion_status.code.take(),
            WaitableOperationState::Done => vstd::pervasive::unreached(),
        };
        if let Some(code) = optional_code {
            if let Poll::Ready(result) = self.inner.apply_code(code) {
                return PollStep::Ready(result);
            }
        }
        let waitable: u32 = self.inner.waitable();
        PollStep::Pending(self.register_waker(waitable, callback_ptr, waker))
    }

    /// Cancels the in-flight operation, if it's still in-flight, and sees what
    /// happened.
    ///
    /// An operation that the host may still call back has to be unregistered
    /// first: the cancellation then goes on with
    /// [`WaitableOperation::finish_cancel`].
    pub fn cancel(&mut self, callback_ptr: usize) -> (step: CancelStep<S::Cancel>)
        requires
            old(self)@.can_cancel(),
        ensures
            old(self)@.cancel(callback_ptr, final(self)@, step),
            step is Cancelled <==> final(self)@.state is Done,
            old(self)@.owned() ==> final(self)@.owned(),
    {
        match &self.inner.state {
            WaitableOperationState::Start(_) => {
                let start = self.inner.take_start();
                return CancelStep::Cancelled(self.inner.op.start_cancelled(start));
            },
            WaitableOperationState::InProgress(_) => {},
            WaitableOperationState::Done => return vstd::pervasive::unreached(),
        }
        if let Some(code) = self.inner.completion_status.code.take() {
            if let Poll::Ready(result) = self.inner.apply_code(code) {
                return CancelStep::Cancelled(self.inner.op.result_into_cancel(result));
            }
            assert(S::update_post(
                old(self)@.op,
                old(self)@.state->InProgress_0,
                code,
                self@.op,
                Err(self@.state->InProgress_0),
            ));
            CancelStep::Cancelled(self.finish_cancel())
        } else {
            let waitable: u32 = self.inner.waitable();
            CancelStep::Unregister(self.unregister_waker(waitable, callback_ptr))
        }
    }

    /// Cancels an operation in progress that the host will not call back.
    pub fn finish_cancel(&mut self) -> (cancel: S::Cancel)
        requires
            old(self)@.can_finish_cancel(),
        ensures
            old(self)@.finish_cancel(final(self)@, cancel),
            final(self)@.state is Done,
            old(self)@.owned() ==> final(self)@.owned(),
    {
        let code: u32 = self.inner.cancel_code();
        match self.inner.apply_code(code) {
            Poll::Ready(result) => self.inner.op.result_into_cancel(result),
            Poll::Pending => vstd::pervasive::unreached(),
        }
    }

    /// Polls the cancellation of this operation, asking for it if need be, to
    /// see if it has completed yet.
    pub fn poll_cancel(&mut self, callback_ptr: usize, waker: Waker) -> (step: PollStep<S::Cancel>)
        requires
            old(self)@.state !is Done,
        ensures
            old(self)@.poll_cancel(callback_ptr, waker, final(self)@, step),
            step is Ready <==> final(self)@.state is Done,
            old(self)@.owned() ==> final(self)@.owned(),
    {
        match &self.inner.state {
            WaitableOperationState::Start(_) => {
                let start = self.inner.take_start();
                return PollStep::Ready(self.inner.op.start_cancelled(start));
            },
            WaitableOperationState::InProgress(_) => {},
            WaitableOperationState::Done => return vstd::pervasive::unreached(),
        }
        if let Some(code) = self.inner.completion_status.code.take() {
            if let Poll::Ready(result) = self.inner.apply_code(code) {
                return PollStep::Ready(self.inner.op.result_into_cancel(result));
            }
        }
        if !self.inner.cancelling {
            self.inner.cancelling = true;
            let code: u32 = self.inner.cancel_code();
            if let Poll::Ready(result) = self.inner.apply_code(code) {
                return PollStep::Ready(self.inner.op.result_into_cancel(result));
            }
        }
        let waitable: u32 = self.inner.waitable();
        PollStep::Pending(self.register_waker(waitable, callback_ptr, waker))
    }

    /// Lets go of this operation without cancelling it.
    pub fn detach(&mut self, callback_ptr: usize) -> (release: Release)
        ensures
            old(self)@.detach(callback_ptr, final(self)@, release),
            release !is Free ==> final(self)@.orphaned(),
    {
        self.inner.detached = true;
        self.inner.completion_status.waker = None;
        match &self.inner.state {
            WaitableOperationState::InProgress(_) => match self.inner.completion_status.code.take() {
                Some(code) => self.inner.on_detached_code(callback_ptr, code),
                None => Release::Waiting,
            },
            _ => Release::Free,
        }
    }

    /// Returns whether or not this operation has completed.
    pub fn is_done(&self) -> (done: bool)
        ensures
            done == (self@.state is Done),
    {
        matches!(self.inner.state, WaitableOperationState::Done)
    }

    /// Returns whether or not there is a status code that nobody has looked at.
    pub fn has_code(&self) -> (has_code: bool)
        ensures
            has_code == (self@.code is Some),
    {
        self.inner.completion_status.code.is_some()
    }

    /// Returns whether or not asynchronous cancellation of this operation has
    /// been asked for.
    pub fn is_cancelling(&self) -> (cancelling: bool)
        ensures
            cancelling == self@.cancelling,
    {
        self.inner.cancelling
    }

    /// Lets go of this operation: one that is not done is detached if it allows
    /// that, and cancelled otherwise.
    ///
    /// An operation that the host may still call back has to be unregistered
    /// first: the drop then goes on with [`WaitableOperation::finish_drop`].
    pub fn drop(&mut self, callback_ptr: usize) -> (step: DropStep)
        requires
            old(self)@.state !is Done && call_ensures(S::detach_on_drop, (), false) ==> old(
                self,
            )@.can_cancel(),
        ensures
            old(self)@.state is Done ==> old(self)@.drop(false, callback_ptr, final(self)@, step),
            old(self)@.state !is Done ==> exists|detach: bool|
                {
                    &&& #[trigger] call_ensures(S::detach_on_drop, (), detach)
                    &&& old(self)@.drop(detach, callback_ptr, final(self)@, step)
                },
            old(self)@.owned() && step is Unregister ==> final(self)@.owned(),
            step matches DropStep::Released(release) ==> release is Free
                || final(self)@.orphaned(),
    {
        if self.is_done() {
            return DropStep::Released(Release::Free);
        }
        if S::detach_on_drop() {
            return DropStep::Released(self.detach(callback_ptr));
        }
        match self.cancel(callback_ptr) {
            CancelStep::Cancelled(_) => DropStep::Released(Release::Free),
            CancelStep::Unregister(call) => DropStep::Unregister(call),
        }
    }

    /// Cancels an operation that is being dropped and that the host will not
    /// call back. It is to be freed then.
    pub fn finish_drop(&mut self)
        requires
            old(self)@.can_finish_cancel(),
        ensures
            exists|cancel: S::Cancel| #[trigger]
                old(self)@.finish_cancel(final(self)@, cancel),
            final(self)@.state is Done,
    {
        let _cancel = self.finish_cancel();
    }
}

} // verus!
