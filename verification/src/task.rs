//! The task record and its enumerated field values.

use vstd::prelude::*;
use crate::errors::TaskError;
use crate::time::{estimate_due_datetime, resolve_outcome};

verus! {

/// The urgency of a task. `DoesNotExist` stands for a numeric level outside
/// the known range; validation keeps it out of any finished task.
#[derive(Debug, Clone, Copy, PartialEq, Eq, Structural)]
pub enum Priority {
    DoesNotExist,
    Low,
    Medium,
    High,
}

/// The priority a numeric level maps to: 1, 2 and 3 name the known levels,
/// anything else falls outside them.
pub open spec fn priority_from_int(v: int) -> Priority {
    if v == 1 {
        Priority::Low
    } else if v == 2 {
        Priority::Medium
    } else if v == 3 {
        Priority::High
    } else {
        Priority::DoesNotExist
    }
}

/// The numeric level of a priority; zero for the out-of-range marker.
pub open spec fn priority_value(p: Priority) -> int {
    match p {
        Priority::DoesNotExist => 0,
        Priority::Low => 1,
        Priority::Medium => 2,
        Priority::High => 3,
    }
}

impl Priority {
    /// Maps a numeric level onto a priority.
    pub fn from(value: u8) -> (r: Self)
        ensures
            r == priority_from_int(value as int),
    {
        match value {
            1 => Priority::Low,
            2 => Priority::Medium,
            3 => Priority::High,
            _ => Priority::DoesNotExist,
        }
    }

    /// The numeric level of this priority.
    pub fn value(&self) -> (r: u8)
        ensures
            r as int == priority_value(*self),
    {
        match self {
            Priority::DoesNotExist => 0,
            Priority::Low => 1,
            Priority::Medium => 2,
            Priority::High => 3,
        }
    }
}

/// The lifecycle state of a task.
#[derive(Debug, Clone, Copy, PartialEq, Eq, Structural)]
pub enum TaskStatus {
    OnGoing,
    Completed,
    Cancelled,
    Delayed,
}

/// The status a numeric value in the known range maps to.
pub open spec fn status_from_int(v: int) -> TaskStatus {
    if v == 1 {
        TaskStatus::OnGoing
    } else if v == 2 {
        TaskStatus::Completed
    } else if v == 3 {
        TaskStatus::Cancelled
    } else {
        TaskStatus::Delayed
    }
}

impl TaskStatus {
    /// Maps a numeric value in the known range onto a status.
    pub fn from(value: u8) -> (r: Self)
        requires
            1 <= value <= 4,
        ensures
            r == status_from_int(value as int),
    {
        match value {
            1 => TaskStatus::OnGoing,
            2 => TaskStatus::Completed,
            3 => TaskStatus::Cancelled,
            _ => TaskStatus::Delayed,
        }
    }
}

/// The view of an optional owned string.
pub open spec fn option_string_view(s: Option<String>) -> Option<Seq<char>> {
    match s {
        Some(x) => Some(x@),
        None => None,
    }
}

/// An immutable task record. Timestamps count whole seconds since the Unix
/// epoch, UTC.
#[derive(Debug)]
pub struct Task {
    pub id: u32,
    pub title: String,
    pub description: Option<String>,
    pub priority: Priority,
    pub status: TaskStatus,
    pub due: i64,
    pub created_at: i64,
    pub updated_at: i64,
}

/// The mathematical content of a task record.
pub struct TaskView {
    pub id: u32,
    pub title: Seq<char>,
    pub description: Option<Seq<char>>,
    pub priority: Priority,
    pub status: TaskStatus,
    pub due: int,
    pub created_at: int,
    pub updated_at: int,
}

impl View for Task {
    type V = TaskView;

    open spec fn view(&self) -> TaskView {
        TaskView {
            id: self.id,
            title: self.title@,
            description: option_string_view(self.description),
            priority: self.priority,
            status: self.status,
            due: self.due as int,
            created_at: self.created_at as int,
            updated_at: self.updated_at as int,
        }
    }
}

impl Task {
    /// Assembles a record whose due instant is the given duration token
    /// resolved against `now`; both stamps are set to `now`.
    pub fn new(
        id: u32,
        title: String,
        description: Option<String>,
        priority: Priority,
        status: TaskStatus,
        due: String,
        now: i64,
    ) -> (r: Result<Task, TaskError>)
        ensures
            match r {
                Ok(t) => resolve_outcome(due@, now as int) matches Ok(ts) && t@ == (TaskView {
                    id,
                    title: title@,
                    description: option_string_view(description),
                    priority,
                    status,
                    due: ts,
                    created_at: now as int,
                    updated_at: now as int,
                }),
                Err(e) => resolve_outcome(due@, now as int) == Result::<int, TaskError>::Err(e),
            },
    {
        let due_ts = match estimate_due_datetime(due.as_str(), now) {
            Ok(ts) => ts,
            Err(e) => {
                return Err(e);
            },
        };
        Ok(
            Task {
                id,
                title,
                description,
                priority,
                status,
                due: due_ts,
                created_at: now,
                updated_at: now,
            },
        )
    }
}

} // verus!
