//! The changes a task can undergo, and which capability may ask for which.

use crate::outcome::Rejection;
use crate::status::TaskStatus;
use crate::task::{clone_urls, Task};
use url::Url;
use vstd::prelude::*;

verus! {

/// The capability under which a change is asked for.
#[derive(Clone, Copy, Debug, PartialEq, Eq, Structural)]
pub enum Capability {
    /// Full write access: progress, finishing and aborting.
    Update,
    /// Aborting, and nothing else.
    Abort,
}

/// A change asked of a task. With the status `Active` it sets the
/// progress; with a terminal status it ends the task and the progress is
/// not looked at.
#[derive(Debug)]
pub struct Change {
    /// The progress to set.
    pub progress: u8,
    /// The status to reach.
    pub status: TaskStatus,
    /// A description of the result, if any.
    pub description_result: Option<String>,
    /// Data of the result; empty for none.
    pub payload_result: Vec<u8>,
}

/// What is left to do once a change has been applied.
#[derive(Debug)]
pub enum Effect {
    /// The task is still active: nothing to do.
    Progressed,
    /// The task has ended: each address is owed a notification, and the
    /// task is to be retired after so many seconds.
    Ended { notify: Vec<Url>, retire_after: u32 },
}

/// The progress a finishing change reports.
pub const PROGRESS_DONE: u8 = 100;

/// Whether the capability `capability` covers reaching the status
/// `requested`: `Update` covers everything, `Abort` only aborting.
pub open spec fn covers(capability: Capability, requested: TaskStatus) -> bool {
    capability == Capability::Update || requested == TaskStatus::Aborted
}

/// Why the change `change`, asked under `capability` of a task whose
/// status is `current`, is refused, if it is. `None` for `change` stands
/// for a request that could not be decoded.
pub open spec fn refusal(current: TaskStatus, capability: Capability, change: Option<Change>) -> Option<Rejection> {
    if current.terminal() {
        Some(Rejection::ReadOnly)
    } else {
        match change {
            None => Some(Rejection::Malformed),
            Some(c) => if covers(capability, c.status) {
                None
            } else {
                Some(Rejection::InvalidTransition)
            },
        }
    }
}

/// The description of the result after a task that had `current` ends
/// with `supplied`.
pub open spec fn result_description(current: String, supplied: Option<String>) -> String {
    match supplied {
        Some(d) => if d@.len() > 0 {
            d
        } else {
            current
        },
        None => current,
    }
}

/// The data of the result after a task that had `current` ends with
/// `supplied`.
pub open spec fn result_payload(current: Vec<u8>, supplied: Vec<u8>) -> Vec<u8> {
    if supplied@.len() > 0 {
        supplied
    } else {
        current
    }
}

/// The task `task` after the change `change` has been applied to it.
pub open spec fn changed(task: Task, change: Change) -> Task {
    if change.status == TaskStatus::Active {
        Task { progress: change.progress, ..task }
    } else {
        Task {
            status: change.status,
            description_result: result_description(task.description_result, change.description_result),
            payload_result: result_payload(task.payload_result, change.payload_result),
            ..task
        }
    }
}

/// Whether `effect` is what is left to do after `change` has been applied
/// to `task`.
pub open spec fn effect_of(task: Task, change: Change, effect: Effect) -> bool {
    if change.status == TaskStatus::Active {
        effect is Progressed
    } else {
        effect matches Effect::Ended { notify, retire_after } && notify@ == task.push_address@
            && retire_after == task.duration
    }
}

impl Change {
    /// The change that sets the progress of an active task.
    pub fn progress(value: u8) -> (c: Change)
        ensures
            c.progress == value,
            c.status == TaskStatus::Active,
            c.description_result is None,
            c.payload_result@ == Seq::<u8>::empty(),
    {
        Change { progress: value, status: TaskStatus::Active, description_result: None, payload_result: Vec::new() }
    }

    /// The change that finishes a task with the given result.
    pub fn finish(description_result: Option<String>, payload_result: Vec<u8>) -> (c: Change)
        ensures
            c.progress == PROGRESS_DONE,
            c.status == TaskStatus::Done,
            c.description_result == description_result,
            c.payload_result == payload_result,
    {
        Change { progress: PROGRESS_DONE, status: TaskStatus::Done, description_result, payload_result }
    }

    /// The change that aborts a task with the given result.
    pub fn abort(description_result: Option<String>, payload_result: Vec<u8>) -> (c: Change)
        ensures
            c.progress == 0,
            c.status == TaskStatus::Aborted,
            c.description_result == description_result,
            c.payload_result == payload_result,
    {
        Change { progress: 0, status: TaskStatus::Aborted, description_result, payload_result }
    }
}

impl Task {
    /// Applies `change`, asked under `capability`, to the task. A terminal
    /// task refuses every change; an undecodable request (`None`) is
    /// refused next; then a change the capability does not cover. A
    /// refused change leaves the task as it was.
    pub fn apply(&mut self, capability: Capability, change: Option<Change>) -> (r: Result<Effect, Rejection>)
        ensures
            match refusal(old(self).status, capability, change) {
                Some(e) => r == Err::<Effect, Rejection>(e) && *final(self) == *old(self),
                None => {
                    &&& *final(self) == changed(*old(self), change->0)
                    &&& r matches Ok(effect)
                    &&& effect_of(*old(self), change->0, effect)
                },
            },
    {
        if self.status.is_terminal() {
            return Err(Rejection::ReadOnly);
        }
        let change = match change {
            Some(c) => c,
            None => {
                return Err(Rejection::Malformed);
            },
        };
        match change.status {
            TaskStatus::Active => {
                if capability == Capability::Abort {
                    return Err(Rejection::InvalidTransition);
                }
                self.progress = change.progress;
                Ok(Effect::Progressed)
            },
            status => {
                if status == TaskStatus::Done && capability == Capability::Abort {
                    return Err(Rejection::InvalidTransition);
                }
                match change.description_result {
                    Some(d) => {
                        if !d.as_str().is_empty() {
                            self.description_result = d;
                        }
                    },
                    None => {},
                }
                if !change.payload_result.is_empty() {
                    self.payload_result = change.payload_result;
                }
                self.status = status;
                Ok(Effect::Ended { notify: clone_urls(&self.push_address), retire_after: self.duration })
            },
        }
    }
}

} // verus!
