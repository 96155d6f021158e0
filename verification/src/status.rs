//! The status of a task and the transitions between statuses.

use vstd::prelude::*;

verus! {

/// The status of a task.
#[derive(Clone, Copy, Debug, PartialEq, Eq, Structural)]
pub enum TaskStatus {
    /// The task has been started and is progressing.
    Active,
    /// The task has been aborted.
    Aborted,
    /// The task finished successfully.
    Done,
}

impl TaskStatus {
    /// Whether no transition leaves this status.
    pub open spec fn terminal(self) -> bool {
        self != TaskStatus::Active
    }

    /// Whether no transition leaves this status.
    pub fn is_terminal(self) -> (r: bool)
        ensures
            r == self.terminal(),
    {
        match self {
            TaskStatus::Active => false,
            TaskStatus::Aborted => true,
            TaskStatus::Done => true,
        }
    }
}

impl Default for TaskStatus {
    fn default() -> (r: TaskStatus)
        ensures
            r == TaskStatus::Active,
    {
        TaskStatus::Active
    }
}

} // verus!
