//! What an operation on a waitable has to provide.

use vstd::prelude::*;

verus! {

/// The operation behind a `WaitableOperation`: a read or a write of a future or
/// a stream, say.
///
/// The methods are free to do as they like, so each comes with a relation that
/// an implementation defines for itself: the values the method is called with
/// stand in it next to the values it may leave behind. An implementation that
/// leaves a relation out promises nothing there.
///
/// Implementors must see to it that [`WaitableOp::in_progress_waitable`] always
/// returns the same value for the state given: it is
/// [`WaitableOp::waitable_of`] that state. That function is no relation, and a
/// verified implementation has to give it: without it the value is one unknown
/// number, which `in_progress_waitable` cannot be shown to return.
pub trait WaitableOp: Sized {
    /// Initial state of this operation, used to kick off the actual component
    /// model operation and transition to `InProgress`.
    type Start;

    /// Intermediate state of this operation when the component model is
    /// involved but it hasn't resolved just yet.
    type InProgress;

    /// Result type of this operation.
    type Result;

    /// Result of when this operation is cancelled.
    type Cancel;

    /// What [`WaitableOp::start`] may do.
    open spec fn start_post(
        pre: Self,
        state: Self::Start,
        post: Self,
        code: u32,
        in_progress: Self::InProgress,
    ) -> bool {
        true
    }

    /// What [`WaitableOp::in_progress_update`] may do.
    open spec fn update_post(
        pre: Self,
        state: Self::InProgress,
        code: u32,
        post: Self,
        outcome: Result<Self::Result, Self::InProgress>,
    ) -> bool {
        true
    }

    /// What [`WaitableOp::start_cancelled`] may do.
    open spec fn start_cancelled_post(
        pre: Self,
        state: Self::Start,
        post: Self,
        cancel: Self::Cancel,
    ) -> bool {
        true
    }

    /// The waitable that `state` is waiting on. It has to be given.
    open spec fn waitable_of(state: Self::InProgress) -> u32 {
        arbitrary()
    }

    /// What [`WaitableOp::in_progress_waitable`] may do to the operation.
    open spec fn waitable_post(pre: Self, state: Self::InProgress, post: Self) -> bool {
        true
    }

    /// What [`WaitableOp::in_progress_cancel`] may do.
    open spec fn cancel_post(
        pre: Self,
        state: Self::InProgress,
        post: Self,
        post_state: Self::InProgress,
        code: u32,
    ) -> bool {
        true
    }

    /// What [`WaitableOp::result_into_cancel`] may do.
    open spec fn into_cancel_post(
        pre: Self,
        result: Self::Result,
        post: Self,
        cancel: Self::Cancel,
    ) -> bool {
        true
    }

    /// Starts the async operation.
    ///
    /// This method will actually call `{future,stream}.{read,write}` with
    /// `state` provided. The return code of the intrinsic is returned here
    /// along with the `InProgress` state.
    fn start(&mut self, state: Self::Start) -> (started: (u32, Self::InProgress))
        ensures
            Self::start_post(*old(self), state, *final(self), started.0, started.1),
    ;

    /// Optionally complete the async operation.
    ///
    /// This method will transition from the `InProgress` state, with some
    /// status code that was received, to either a completed result or a new
    /// `InProgress` state. This is invoked when:
    ///
    /// * starting the operation returned a code
    /// * a new status code has been received from the host
    /// * cancellation returned a code to be processed here
    fn in_progress_update(&mut self, state: Self::InProgress, code: u32) -> (outcome: Result<
        Self::Result,
        Self::InProgress,
    >)
        ensures
            Self::update_post(*old(self), state, code, *final(self), outcome),
    ;

    /// Conversion from the "start" state to the "cancel" result, needed when an
    /// operation is cancelled before it's started.
    fn start_cancelled(&mut self, state: Self::Start) -> (cancel: Self::Cancel)
        ensures
            Self::start_cancelled_post(*old(self), state, *final(self), cancel),
    ;

    /// Acquires the component-model `waitable` index that the `InProgress`
    /// state is waiting on.
    fn in_progress_waitable(&mut self, state: &Self::InProgress) -> (waitable: u32)
        ensures
            waitable == Self::waitable_of(*state),
            Self::waitable_post(*old(self), *state, *final(self)),
    ;

    /// Initiates a request for cancellation of this operation. Returns the
    /// status code returned by the `{future,stream}.cancel-{read,write}`
    /// intrinsic.
    ///
    /// Note that this must synchronously complete the operation somehow. This
    /// cannot return a status code indicating that an operation is pending,
    /// instead the operation must be complete with the returned code. That may
    /// mean that this intrinsic can block while figuring things out in the
    /// component model ABI, for example. `WaitableOperation::cancel` relies on
    /// it; only `WaitableOperation::poll_cancel` copes with an operation that
    /// stays pending.
    fn in_progress_cancel(&mut self, state: &mut Self::InProgress) -> (code: u32)
        ensures
            Self::cancel_post(*old(self), *old(state), *final(self), *final(state), code),
    ;

    /// Converts a "completion result" into a "cancel result". This is necessary
    /// when an in-progress operation is cancelled so the in-progress result is
    /// first acquired and then transitioned to a cancel request.
    fn result_into_cancel(&mut self, result: Self::Result) -> (cancel: Self::Cancel)
        ensures
            Self::into_cancel_post(*old(self), result, *final(self), cancel),
    ;

    /// Whether dropping this operation is allowed to detach it from its owner
    /// and let the component-model operation continue in the background.
    fn detach_on_drop() -> (detach: bool)
        default_ensures
            !detach,
    {
        false
    }
}

} // verus!
