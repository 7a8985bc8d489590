//! Asynchronous operations on component-model waitables, as a verified state
//! machine.
//!
//! [`WaitableOperation`] drives one operation of a [`WaitableOp`] from its
//! start, through any number of status codes delivered by the host, to its
//! result or its cancellation. The library never talks to the host itself: a
//! function that needs the host hands back a [`TaskCall`], which the caller
//! carries out one [`HostAction`] at a time.

pub mod behaviour;
pub mod cabi;
pub mod laws;
pub mod model;
pub mod op;
pub mod operation;
pub mod step;

pub use crate::cabi::WASIP3_TASK_V1;
pub use crate::cabi::{EntryCall, HostAction, RestoreTask, Task, TaskCall, TaskEntry, TaskFault};
pub use crate::op::WaitableOp;
pub use crate::operation::{cabi_wake, OperationInner, WaitableOperation};
pub use crate::step::{CancelStep, DropStep, Poll, PollStep, Release, WakeStep};
