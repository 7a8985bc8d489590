//! What the functions of an operation hand back to their caller.

use std::task::Waker;
use vstd::prelude::*;

use crate::cabi::TaskCall;

verus! {

/// [`std::task::Waker`], the handle by which an owner is woken. It is carried
/// around and handed back, never looked into, and nothing is claimed of it.
#[verifier::external_type_specification]
#[verifier::external_body]
pub struct ExWaker(Waker);

/// Whether a status code completed the operation.
#[derive(Debug)]
pub enum Poll<T> {
    /// It did, with this result.
    Ready(T),
    /// It did not.
    Pending,
}

/// How a poll ends.
#[derive(Debug)]
pub enum PollStep<T> {
    /// The operation is over, with this result.
    Ready(T),
    /// The operation goes on. Make the call, then report that it is pending.
    Pending(TaskCall),
}

/// How a cancellation goes on.
#[derive(Debug)]
pub enum CancelStep<T> {
    /// The operation is over, with this result.
    Cancelled(T),
    /// Make the call, then finish the cancellation.
    Unregister(TaskCall),
}

/// What becomes of an operation that nobody owns.
#[derive(Debug)]
pub enum Release {
    /// It is over: free it.
    Free,
    /// It goes on, and is registered already.
    Waiting,
    /// It goes on. Make the call.
    Register(TaskCall),
}

/// How the drop of an operation goes on.
#[derive(Debug)]
pub enum DropStep {
    /// The owner has let go of the operation.
    Released(Release),
    /// Make the call, then finish the drop.
    Unregister(TaskCall),
}

/// What to do when the host has delivered a status code.
#[derive(Debug)]
pub enum WakeStep {
    /// The code is kept for the owner. Wake it, if it left a waker.
    Wake(Option<Waker>),
    /// There is no owner.
    Detached(Release),
}

} // verus!
