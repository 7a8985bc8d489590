//! Calls into the current task.
//!
//! The host keeps one slot with the current task. To register or unregister a
//! callback for a waitable, the task is taken out of the slot, one of its two
//! entries is called, and the task is put back, so that the entry itself runs
//! with an empty slot. Each stage of such a call is a type of its own: it says
//! which [`HostAction`] is due, and turns the host's reply into the next stage.

use vstd::prelude::*;

verus! {

/// The oldest version of the task structure that has the two entries for
/// waitables.
pub const WASIP3_TASK_V1: u32 = 1;

/// A task, as the host's slot holds it.
#[derive(Clone, Copy, Debug, PartialEq, Eq, Structural)]
pub struct Task {
    /// Where the task structure is.
    pub ptr: usize,
    /// The version that the task structure declares.
    pub version: u32,
}

/// An entry of the task.
#[derive(Clone, Copy, Debug, PartialEq, Eq, Structural)]
pub enum TaskEntry {
    /// Registers a callback for a waitable.
    WaitableRegister,
    /// Removes the callback of a waitable.
    WaitableUnregister,
}

/// Something only the host can do.
#[derive(Clone, Copy, Debug, PartialEq, Eq, Structural)]
pub enum HostAction {
    /// Put the given task, or none, into the slot of the current task. The reply
    /// is what the slot held before.
    SetTask(Option<Task>),
    /// Have `task` call back with `callback_ptr` once `waitable` has an event.
    /// The reply is the pointer registered for `waitable` before, if any.
    WaitableRegister { task: Task, waitable: u32, callback_ptr: usize },
    /// Have `task` forget the callback of `waitable`. The reply is the pointer
    /// registered for `waitable` before, if any.
    WaitableUnregister { task: Task, waitable: u32 },
}

impl HostAction {
    /// What the slot of the current task holds after the action, given what it
    /// held before.
    pub open spec fn slot_after(self, slot: Option<Task>) -> Option<Task> {
        match self {
            HostAction::SetTask(task) => task,
            _ => slot,
        }
    }

    /// The pointers that the host will call back with, by waitable, after the
    /// action, given those before it.
    pub open spec fn pointers_after(self, pointers: Map<u32, usize>) -> Map<u32, usize> {
        match self {
            HostAction::SetTask(_) => pointers,
            HostAction::WaitableRegister { task: _, waitable, callback_ptr } => pointers.insert(
                waitable,
                callback_ptr,
            ),
            HostAction::WaitableUnregister { task: _, waitable } => pointers.remove(waitable),
        }
    }
}

/// Why a call into the task cannot go on. The caller is expected to panic.
#[derive(Clone, Copy, Debug, PartialEq, Eq, Structural)]
pub enum TaskFault {
    /// There is no current task.
    NoTask,
    /// The current task is older than [`WASIP3_TASK_V1`].
    UnsupportedVersion,
    /// Somebody else's callback was registered for the waitable.
    ForeignCallback,
}

/// A call into the current task that has not begun.
#[derive(Clone, Copy, Debug, PartialEq, Eq, Structural)]
pub struct TaskCall {
    /// The entry to call.
    pub entry: TaskEntry,
    /// The pointer the operation registers itself under.
    pub callback_ptr: usize,
    /// The waitable the call is about.
    pub waitable: u32,
}

impl TaskCall {
    /// The call that registers `callback_ptr` for `waitable`.
    pub open spec fn register(callback_ptr: usize, waitable: u32) -> TaskCall {
        TaskCall { entry: TaskEntry::WaitableRegister, callback_ptr, waitable }
    }

    /// The call that removes the registration of `callback_ptr` for `waitable`.
    pub open spec fn unregister(callback_ptr: usize, waitable: u32) -> TaskCall {
        TaskCall { entry: TaskEntry::WaitableUnregister, callback_ptr, waitable }
    }

    /// The waitables that `callback_ptr` is registered for once the call has
    /// been carried out, given those it was registered for before.
    pub open spec fn registered_after(self, registered: Set<u32>) -> Set<u32> {
        match self.entry {
            TaskEntry::WaitableRegister => registered.insert(self.waitable),
            TaskEntry::WaitableUnregister => registered.remove(self.waitable),
        }
    }

    /// Prepares the registration of `callback_ptr` for `waitable`.
    pub fn register_raw(callback_ptr: usize, waitable: u32) -> (call: TaskCall)
        ensures
            call == TaskCall::register(callback_ptr, waitable),
            call.entry == TaskEntry::WaitableRegister,
            call.callback_ptr == callback_ptr,
            call.waitable == waitable,
    {
        TaskCall { entry: TaskEntry::WaitableRegister, callback_ptr, waitable }
    }

    /// Prepares the removal of the registration of `callback_ptr` for
    /// `waitable`.
    pub fn unregister_raw(callback_ptr: usize, waitable: u32) -> (call: TaskCall)
        ensures
            call == TaskCall::unregister(callback_ptr, waitable),
            call.entry == TaskEntry::WaitableUnregister,
            call.callback_ptr == callback_ptr,
            call.waitable == waitable,
    {
        TaskCall { entry: TaskEntry::WaitableUnregister, callback_ptr, waitable }
    }

    /// The action that is due, see [`TaskCall::action`].
    pub open spec fn due(self) -> HostAction {
        HostAction::SetTask(None)
    }

    /// First the slot is emptied.
    pub fn action(&self) -> (action: HostAction)
        ensures
            action == self.due(),
            action == HostAction::SetTask(None),
    {
        HostAction::SetTask(None)
    }

    /// Goes on with `task`, which the slot held. There has to be one, and it
    /// has to be recent enough.
    pub fn task_taken(self, task: Option<Task>) -> (next: Result<EntryCall, TaskFault>)
        ensures
            next == self.after_task_taken(task),
            task is None <==> next == Err::<EntryCall, TaskFault>(TaskFault::NoTask),
            task is Some && task->0.version < 1 <==> next == Err::<EntryCall, TaskFault>(
                TaskFault::UnsupportedVersion,
            ),
            next matches Ok(entry) ==> entry.call == self && Some(entry.task) == task,
    {
        match task {
            None => Err(TaskFault::NoTask),
            Some(task) => if task.version >= WASIP3_TASK_V1 {
                Ok(EntryCall { call: self, task })
            } else {
                Err(TaskFault::UnsupportedVersion)
            },
        }
    }

    /// What follows when the slot held `task`, see [`TaskCall::task_taken`].
    pub open spec fn after_task_taken(self, task: Option<Task>) -> Result<EntryCall, TaskFault> {
        match task {
            Some(task) if task.version >= WASIP3_TASK_V1 => Ok(EntryCall { call: self, task }),
            Some(_) => Err(TaskFault::UnsupportedVersion),
            None => Err(TaskFault::NoTask),
        }
    }
}

/// A call whose task has been taken out of the slot.
#[derive(Clone, Copy, Debug, PartialEq, Eq, Structural)]
pub struct EntryCall {
    /// The call that is being made.
    pub call: TaskCall,
    /// The task it goes to.
    pub task: Task,
}

impl EntryCall {
    /// The action that is due, see [`EntryCall::action`].
    pub open spec fn due(self) -> HostAction {
        match self.call.entry {
            TaskEntry::WaitableRegister => HostAction::WaitableRegister {
                task: self.task,
                waitable: self.call.waitable,
                callback_ptr: self.call.callback_ptr,
            },
            TaskEntry::WaitableUnregister => HostAction::WaitableUnregister {
                task: self.task,
                waitable: self.call.waitable,
            },
        }
    }

    /// Then the entry is called.
    pub fn action(&self) -> (action: HostAction)
        ensures
            action == self.due(),
            self.call.entry is WaitableRegister ==> action == (HostAction::WaitableRegister {
                task: self.task,
                waitable: self.call.waitable,
                callback_ptr: self.call.callback_ptr,
            }),
            self.call.entry is WaitableUnregister ==> action == (HostAction::WaitableUnregister {
                task: self.task,
                waitable: self.call.waitable,
            }),
    {
        match self.call.entry {
            TaskEntry::WaitableRegister => HostAction::WaitableRegister {
                task: self.task,
                waitable: self.call.waitable,
                callback_ptr: self.call.callback_ptr,
            },
            TaskEntry::WaitableUnregister => HostAction::WaitableUnregister {
                task: self.task,
                waitable: self.call.waitable,
            },
        }
    }

    /// Goes on after the entry returned `prev`, the pointer that was registered
    /// before. If there was one, it has to be the operation's own.
    pub fn entry_returned(self, prev: Option<usize>) -> (next: Result<RestoreTask, TaskFault>)
        ensures
            next == self.after_entry_returned(prev),
            prev is Some && prev->0 != self.call.callback_ptr <==> next == Err::<
                RestoreTask,
                TaskFault,
            >(TaskFault::ForeignCallback),
            next is Err ==> prev is Some,
            next matches Ok(restore) ==> restore.task == self.task,
    {
        match prev {
            Some(prev) => if prev == self.call.callback_ptr {
                Ok(RestoreTask { task: self.task })
            } else {
                Err(TaskFault::ForeignCallback)
            },
            None => Ok(RestoreTask { task: self.task }),
        }
    }

    /// What follows when the entry returned `prev`, see
    /// [`EntryCall::entry_returned`].
    pub open spec fn after_entry_returned(self, prev: Option<usize>) -> Result<
        RestoreTask,
        TaskFault,
    > {
        if prev is None || prev == Some(self.call.callback_ptr) {
            Ok(RestoreTask { task: self.task })
        } else {
            Err(TaskFault::ForeignCallback)
        }
    }
}

/// A call that has been made, with its task still out of the slot.
#[derive(Clone, Copy, Debug, PartialEq, Eq, Structural)]
pub struct RestoreTask {
    /// The task to put back.
    pub task: Task,
}

impl RestoreTask {
    /// The action that is due, see [`RestoreTask::action`].
    pub open spec fn due(self) -> HostAction {
        HostAction::SetTask(Some(self.task))
    }

    /// Last the task goes back into the slot. The host's reply does not matter.
    pub fn action(&self) -> (action: HostAction)
        ensures
            action == self.due(),
            action == HostAction::SetTask(Some(self.task)),
    {
        HostAction::SetTask(Some(self.task))
    }
}

} // verus!
