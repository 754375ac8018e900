//! The option table: the recognized options, the flag spellings each one
//! answers to, and string equality for matching tokens against them.

use vstd::prelude::*;
use vstd::string::StrSliceExecFns;
use crate::digits::{digits_value, parse_u8_value, parses_u8};
use crate::errors::TaskError;
use crate::task::{priority_from_int, Priority};
use crate::task_builder::{BuilderView, TaskBuilder};

verus! {

/// A named, flag-introduced modifier to a command, carrying one string value.
#[derive(Debug, Clone, Copy, PartialEq, Eq, Structural)]
pub enum CommandOptions {
    Description,
    Priority,
    TimeEstimate,
}

/// Whether a token is one of the accepted flag spellings of an option.
pub open spec fn opt_flag_match(opt: CommandOptions, s: Seq<char>) -> bool {
    match opt {
        CommandOptions::Description => s == "-d"@ || s == "--description"@,
        CommandOptions::Priority => s == "-p"@ || s == "--priority"@,
        CommandOptions::TimeEstimate => s == "-t"@ || s == "--time"@,
    }
}

/// What an option's update function does with a raw value: the staged slot
/// it fills on success, and the invalid-value failure otherwise.
pub open spec fn update_outcome(opt: CommandOptions, b: BuilderView, v: Seq<char>) -> Result<
    BuilderView,
    TaskError,
> {
    match opt {
        CommandOptions::Description => if v.len() == 0 {
            Result::Err(TaskError::InvalidOptionValue(CommandOptions::Description))
        } else {
            Result::Ok(BuilderView { description: Some(v), ..b })
        },
        CommandOptions::Priority => if parses_u8(v) && 1 <= digits_value(v) <= 3 {
            Result::Ok(BuilderView { priority: Some(priority_from_int(digits_value(v))), ..b })
        } else {
            Result::Err(TaskError::InvalidOptionValue(CommandOptions::Priority))
        },
        CommandOptions::TimeEstimate => if v.len() == 0 {
            Result::Err(TaskError::InvalidOptionValue(CommandOptions::TimeEstimate))
        } else {
            Result::Ok(BuilderView { due: Some(v), ..b })
        },
    }
}

/// The numeric levels 1, 2 and 3 stage exactly Low, Medium and High, and
/// every other value — zero, four and beyond, or anything that is not a
/// small decimal number — is rejected as an invalid priority.
pub proof fn lemma_priority_levels(b: BuilderView, v: Seq<char>)
    ensures
        parses_u8(v) && digits_value(v) == 1 ==> update_outcome(CommandOptions::Priority, b, v)
            == Result::<BuilderView, TaskError>::Ok(
            (BuilderView { priority: Some(Priority::Low), ..b }),
        ),
        parses_u8(v) && digits_value(v) == 2 ==> update_outcome(CommandOptions::Priority, b, v)
            == Result::<BuilderView, TaskError>::Ok(
            (BuilderView { priority: Some(Priority::Medium), ..b }),
        ),
        parses_u8(v) && digits_value(v) == 3 ==> update_outcome(CommandOptions::Priority, b, v)
            == Result::<BuilderView, TaskError>::Ok(
            (BuilderView { priority: Some(Priority::High), ..b }),
        ),
        !(parses_u8(v) && 1 <= digits_value(v) <= 3) ==> update_outcome(
            CommandOptions::Priority,
            b,
            v,
        ) == Result::<BuilderView, TaskError>::Err(
            TaskError::InvalidOptionValue(CommandOptions::Priority),
        ),
{
}

/// Character-for-character string equality.
pub fn str_eq(a: &str, b: &str) -> (r: bool)
    ensures
        r == (a@ == b@),
{
    let na = a.unicode_len();
    let nb = b.unicode_len();
    if na != nb {
        return false;
    }
    let mut i: usize = 0;
    while i < na
        invariant
            0 <= i <= na,
            na == a@.len(),
            na == b@.len(),
            forall|j: int| 0 <= j < i ==> a@[j] == b@[j],
        decreases na - i,
    {
        if a.get_char(i) != b.get_char(i) {
            return false;
        }
        i += 1;
    }
    proof {
        assert(a@ =~= b@);
    }
    true
}

impl CommandOptions {
    /// The accepted spellings of this option's flag, short form first.
    pub fn flag(&self) -> (r: Vec<&'static str>)
        ensures
            r@.len() == 2,
            forall|i: int| 0 <= i < r@.len() ==> opt_flag_match(*self, #[trigger] r@[i]@),
            match *self {
                CommandOptions::Description => r@[0]@ == "-d"@ && r@[1]@ == "--description"@,
                CommandOptions::Priority => r@[0]@ == "-p"@ && r@[1]@ == "--priority"@,
                CommandOptions::TimeEstimate => r@[0]@ == "-t"@ && r@[1]@ == "--time"@,
            },
    {
        let mut v: Vec<&'static str> = Vec::new();
        match self {
            CommandOptions::Description => {
                v.push("-d");
                v.push("--description");
            },
            CommandOptions::Priority => {
                v.push("-p");
                v.push("--priority");
            },
            CommandOptions::TimeEstimate => {
                v.push("-t");
                v.push("--time");
            },
        }
        v
    }

    /// Validates a raw option value and stages it on the builder: the
    /// option table's update function. An empty value is invalid for every
    /// option; a priority value must also be a decimal number naming a known
    /// level.
    pub fn update_task(&self, task: TaskBuilder, value: &String) -> (r: Result<
        TaskBuilder,
        TaskError,
    >)
        ensures
            match r {
                Ok(b) => update_outcome(*self, task@, value@) == Result::<
                    BuilderView,
                    TaskError,
                >::Ok(b@),
                Err(e) => update_outcome(*self, task@, value@) == Result::<
                    BuilderView,
                    TaskError,
                >::Err(e),
            },
    {
        match self {
            CommandOptions::Description => {
                if value.as_str().is_empty() {
                    Err(TaskError::InvalidOptionValue(CommandOptions::Description))
                } else {
                    Ok(task.description(value.clone()))
                }
            },
            CommandOptions::Priority => {
                match parse_u8_value(value.as_str()) {
                    None => Err(TaskError::InvalidOptionValue(CommandOptions::Priority)),
                    Some(v) => {
                        let p = Priority::from(v);
                        match p {
                            Priority::DoesNotExist => Err(
                                TaskError::InvalidOptionValue(CommandOptions::Priority),
                            ),
                            _ => Ok(task.priority(p)),
                        }
                    },
                }
            },
            CommandOptions::TimeEstimate => {
                if value.as_str().is_empty() {
                    Err(TaskError::InvalidOptionValue(CommandOptions::TimeEstimate))
                } else {
                    Ok(task.due(value.clone()))
                }
            },
        }
    }

    /// Whether the token spells this option's flag, in short or long form.
    pub fn matches_flag(&self, token: &str) -> (r: bool)
        ensures
            r == opt_flag_match(*self, token@),
    {
        match self {
            CommandOptions::Description => {
                str_eq(token, "-d") || str_eq(token, "--description")
            },
            CommandOptions::Priority => {
                str_eq(token, "-p") || str_eq(token, "--priority")
            },
            CommandOptions::TimeEstimate => {
                str_eq(token, "-t") || str_eq(token, "--time")
            },
        }
    }
}

} // verus!
