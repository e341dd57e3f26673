//! Task representation.
use vstd::prelude::*;

verus! {

/// The possible states of a task.
#[derive(Debug, Clone, Copy, PartialEq, Eq, Structural)]
pub enum TaskState {
    /// Task is ready to run.
    Ready,
    /// Task is currently running.
    Running,
    /// Task is blocked waiting for an event.
    Blocked,
}

/// A task identifier.
#[derive(Debug, Clone, Copy, PartialEq, Eq, Structural, PartialOrd, Ord)]
pub struct TaskId(pub u64);

/// Represents a unit of work (task/thread) in the kernel.
#[derive(Debug)]
pub struct Task {
    /// The unique identifier for the task.
    pub id: TaskId,
    /// The current state of the task.
    pub state: TaskState,
}

impl Task {
    /// Create a new task, ready to run.
    pub fn new(id: u64) -> (t: Self)
        ensures
            t.id == TaskId(id),
            t.state == TaskState::Ready,
    {
        Self { id: TaskId(id), state: TaskState::Ready }
    }
}

} // verus!
