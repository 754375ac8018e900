//! The task builder: a single-use accumulator that stages fields through
//! fluent setters and commits them, or reports what is missing, at `build`.

use vstd::prelude::*;
use crate::errors::TaskError;
use crate::task::{option_string_view, Priority, Task, TaskStatus, TaskView};
use crate::time::{estimate_due_datetime, resolve_outcome};

verus! {

/// The staged slots of a task under construction.
pub struct BuilderView {
    pub id: Option<u32>,
    pub title: Option<Seq<char>>,
    pub description: Option<Seq<char>>,
    pub priority: Option<Priority>,
    pub status: Option<TaskStatus>,
    pub due: Option<Seq<char>>,
}

/// A freshly created builder: priority and status seeded to their defaults,
/// every other slot empty.
pub open spec fn new_builder_view() -> BuilderView {
    BuilderView {
        id: None,
        title: None,
        description: None,
        priority: Some(Priority::Low),
        status: Some(TaskStatus::OnGoing),
        due: None,
    }
}

/// The outcome of committing a builder at the instant `now`: the title and a
/// due token must be staged, and the due token must resolve; the task then
/// carries the staged fields, seeded defaults for empty slots, and both
/// stamps equal to `now`.
pub open spec fn build_outcome(b: BuilderView, now: int) -> Result<TaskView, TaskError> {
    if b.title is None {
        Result::Err(TaskError::MissingTitle)
    } else if b.due is None {
        Result::Err(TaskError::MissingDue)
    } else {
        match resolve_outcome(b.due.unwrap(), now) {
            Result::Err(e) => Result::Err(e),
            Result::Ok(ts) => Result::Ok(
                TaskView {
                    id: match b.id {
                        Some(v) => v,
                        None => 0,
                    },
                    title: b.title.unwrap(),
                    description: b.description,
                    priority: match b.priority {
                        Some(p) => p,
                        None => Priority::Low,
                    },
                    status: match b.status {
                        Some(s) => s,
                        None => TaskStatus::OnGoing,
                    },
                    due: ts,
                    created_at: now,
                    updated_at: now,
                },
            ),
        }
    }
}

/// Building with no title staged fails with the title-missing error,
/// whatever the other slots hold.
pub proof fn lemma_build_missing_title(b: BuilderView, now: int)
    requires
        b.title is None,
    ensures
        build_outcome(b, now) == Result::<TaskView, TaskError>::Err(TaskError::MissingTitle),
{
}

/// Building with a title but no due token staged fails with the due-missing
/// error, whatever the other slots hold.
pub proof fn lemma_build_missing_due(b: BuilderView, now: int)
    requires
        b.title is Some,
        b.due is None,
    ensures
        build_outcome(b, now) == Result::<TaskView, TaskError>::Err(TaskError::MissingDue),
{
}

/// Every successfully built task is stamped with the injected instant, so
/// its creation and update stamps are equal.
pub proof fn lemma_build_stamps(b: BuilderView, now: int, t: TaskView)
    requires
        build_outcome(b, now) == Result::<TaskView, TaskError>::Ok(t),
    ensures
        t.created_at == now,
        t.updated_at == now,
{
}

/// A successful build from a builder whose description, priority and status
/// slots were never touched yields no description, the default priority and
/// the default status.
pub proof fn lemma_build_defaults(b: BuilderView, now: int, t: TaskView)
    requires
        b.description is None,
        b.priority == new_builder_view().priority,
        b.status == new_builder_view().status,
        build_outcome(b, now) == Result::<TaskView, TaskError>::Ok(t),
    ensures
        t.description is None,
        t.priority == Priority::Low,
        t.status == TaskStatus::OnGoing,
        t.created_at == t.updated_at,
{
}

/// The mutable staging object for one task.
pub struct TaskBuilder {
    pub id: Option<u32>,
    pub title: Option<String>,
    pub description: Option<String>,
    pub priority: Option<Priority>,
    pub status: Option<TaskStatus>,
    pub due: Option<String>,
}

impl View for TaskBuilder {
    type V = BuilderView;

    open spec fn view(&self) -> BuilderView {
        BuilderView {
            id: self.id,
            title: option_string_view(self.title),
            description: option_string_view(self.description),
            priority: self.priority,
            status: self.status,
            due: option_string_view(self.due),
        }
    }
}

impl TaskBuilder {
    /// A builder with empty slots and seeded defaults.
    pub fn new() -> (r: TaskBuilder)
        ensures
            r@ == new_builder_view(),
    {
        TaskBuilder {
            id: None,
            title: None,
            description: None,
            priority: Some(Priority::Low),
            status: Some(TaskStatus::OnGoing),
            due: None,
        }
    }

    /// Stages the identifier.
    pub fn id(self, id: u32) -> (r: Self)
        ensures
            r@ == (BuilderView { id: Some(id), ..self@ }),
    {
        TaskBuilder { id: Some(id), ..self }
    }

    /// Stages the title.
    pub fn title(self, title: String) -> (r: Self)
        ensures
            r@ == (BuilderView { title: Some(title@), ..self@ }),
    {
        TaskBuilder { title: Some(title), ..self }
    }

    /// Stages the description.
    pub fn description(self, description: String) -> (r: Self)
        ensures
            r@ == (BuilderView { description: Some(description@), ..self@ }),
    {
        TaskBuilder { description: Some(description), ..self }
    }

    /// Stages the priority.
    pub fn priority(self, priority: Priority) -> (r: Self)
        ensures
            r@ == (BuilderView { priority: Some(priority), ..self@ }),
    {
        TaskBuilder { priority: Some(priority), ..self }
    }

    /// Stages the status.
    pub fn status(self, status: TaskStatus) -> (r: Self)
        ensures
            r@ == (BuilderView { status: Some(status), ..self@ }),
    {
        TaskBuilder { status: Some(status), ..self }
    }

    /// Stages the raw due token; it is resolved later, at `build`.
    pub fn due(self, due: String) -> (r: Self)
        ensures
            r@ == (BuilderView { due: Some(due@), ..self@ }),
    {
        TaskBuilder { due: Some(due), ..self }
    }

    /// Commits the staged fields at the instant `now`, consuming the
    /// builder: a task on success, and the first missing or malformed piece
    /// otherwise.
    pub fn build(self, now: i64) -> (r: Result<Task, TaskError>)
        ensures
            match r {
                Ok(t) => build_outcome(self@, now as int) == Result::<TaskView, TaskError>::Ok(t@),
                Err(e) => build_outcome(self@, now as int) == Result::<TaskView, TaskError>::Err(
                    e,
                ),
            },
    {
        let TaskBuilder { id, title, description, priority, status, due } = self;
        let title_v = match title {
            Some(t) => t,
            None => {
                return Err(TaskError::MissingTitle);
            },
        };
        let due_v = match due {
            Some(d) => d,
            None => {
                return Err(TaskError::MissingDue);
            },
        };
        let due_ts = match estimate_due_datetime(due_v.as_str(), now) {
            Ok(ts) => ts,
            Err(e) => {
                return Err(e);
            },
        };
        let id_v = match id {
            Some(v) => v,
            None => 0,
        };
        let priority_v = match priority {
            Some(p) => p,
            None => Priority::Low,
        };
        let status_v = match status {
            Some(s) => s,
            None => TaskStatus::OnGoing,
        };
        Ok(
            Task {
                id: id_v,
                title: title_v,
                description,
                priority: priority_v,
                status: status_v,
                due: due_ts,
                created_at: now,
                updated_at: now,
            },
        )
    }
}

impl Default for TaskBuilder {
    fn default() -> (r: Self)
        ensures
            r@ == new_builder_view(),
    {
        TaskBuilder::new()
    }
}

} // verus!
