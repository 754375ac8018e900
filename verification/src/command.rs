//! The command dispatcher: identifies a command from the argument list,
//! checks the list's minimum length, scans it against the option table to
//! populate a builder, and commits the builder.

use vstd::prelude::*;
use crate::errors::TaskError;
use crate::options::{opt_flag_match, str_eq, update_outcome, CommandOptions};
use crate::task::{Task, TaskStatus, TaskView};
use crate::task_builder::{build_outcome, new_builder_view, BuilderView, TaskBuilder};
use crate::time::current_timestamp;

verus! {

/// The recognized top-level commands; each is selected by its flag token.
#[derive(Debug, Clone, Copy, PartialEq, Eq, Structural)]
pub enum CommandFlags {
    NewTask,
}

/// The options a command requires.
pub open spec fn spec_required(command: CommandFlags) -> Seq<CommandOptions> {
    seq![CommandOptions::TimeEstimate]
}

/// The options a command accepts but does not require.
pub open spec fn spec_optional(command: CommandFlags) -> Seq<CommandOptions> {
    seq![CommandOptions::Description, CommandOptions::Priority]
}

/// The minimum argument-list length of a command: program name, command
/// flag, positional title, and one flag token per required option.
pub open spec fn spec_min_length(command: CommandFlags) -> int {
    3 + spec_required(command).len() as int
}

/// The earliest index at or after `i` whose token spells one of the
/// option's flags.
pub open spec fn find_from(args: Seq<String>, opt: CommandOptions, i: int) -> Option<int>
    decreases args.len() - i,
{
    if i < 0 || i >= args.len() {
        None
    } else if opt_flag_match(opt, args[i]@) {
        Some(i)
    } else {
        find_from(args, opt, i + 1)
    }
}

/// The earliest index in the whole argument list whose token spells one of
/// the option's flags.
pub open spec fn find_flag(args: Seq<String>, opt: CommandOptions) -> Option<int> {
    find_from(args, opt, 0)
}

/// A found position lies inside the list and its token spells one of the
/// option's flags, while no earlier token does; a miss means no token at
/// all spells one.
pub proof fn lemma_find_from_props(args: Seq<String>, opt: CommandOptions, i: int)
    requires
        0 <= i,
    ensures
        match find_from(args, opt, i) {
            Some(j) => i <= j < args.len() && opt_flag_match(opt, args[j]@) && (forall|k: int|
                i <= k < j ==> !opt_flag_match(opt, #[trigger] args[k]@)),
            None => forall|k: int| i <= k < args.len() ==> !opt_flag_match(
                opt,
                #[trigger] args[k]@,
            ),
        },
    decreases args.len() - i,
{
    if i < args.len() {
        if !opt_flag_match(opt, args[i]@) {
            lemma_find_from_props(args, opt, i + 1);
        }
    }
}

/// Scans the full argument list for the first token spelling one of the
/// option's flags.
fn find_option(args: &Vec<String>, opt: CommandOptions) -> (r: Option<usize>)
    ensures
        match r {
            Some(i) => find_flag(args@, opt) == Some(i as int),
            None => find_flag(args@, opt) is None,
        },
{
    let mut i: usize = 0;
    while i < args.len()
        invariant
            0 <= i <= args@.len(),
            find_from(args@, opt, 0) == find_from(args@, opt, i as int),
        decreases args@.len() - i,
    {
        if opt.matches_flag(args[i].as_str()) {
            return Some(i);
        }
        i += 1;
    }
    None
}

/// One option's scan: its flag is looked for anywhere in the list, the
/// token after the first match is its value, and the option's update
/// function is applied; absence is an error exactly for a required option,
/// and a flag with no token after it lacks its value.
pub open spec fn scan_one_outcome(
    args: Seq<String>,
    b: BuilderView,
    opt: CommandOptions,
    required: bool,
) -> Result<BuilderView, TaskError> {
    match find_flag(args, opt) {
        None => if required {
            Result::Err(TaskError::MissingRequiredOption(opt))
        } else {
            Result::Ok(b)
        },
        Some(i) => if i + 1 >= args.len() {
            Result::Err(TaskError::MissingOptionValue(opt))
        } else {
            update_outcome(opt, b, args[i + 1]@)
        },
    }
}

/// A list of options scanned in order, each feeding the builder the next
/// one sees; the first failure stops the scan.
pub open spec fn scan_fold(
    args: Seq<String>,
    b: BuilderView,
    opts: Seq<CommandOptions>,
    required: bool,
) -> Result<BuilderView, TaskError>
    decreases opts.len(),
{
    if opts.len() == 0 {
        Result::Ok(b)
    } else {
        match scan_one_outcome(args, b, opts[0], required) {
            Result::Err(e) => Result::Err(e),
            Result::Ok(b2) => scan_fold(args, b2, opts.skip(1), required),
        }
    }
}

fn scan_one(args: &Vec<String>, task: TaskBuilder, opt: CommandOptions, required: bool) -> (r:
    Result<TaskBuilder, TaskError>)
    ensures
        match r {
            Ok(b) => scan_one_outcome(args@, task@, opt, required) == Result::<
                BuilderView,
                TaskError,
            >::Ok(b@),
            Err(e) => scan_one_outcome(args@, task@, opt, required) == Result::<
                BuilderView,
                TaskError,
            >::Err(e),
        },
{
    proof {
        lemma_find_from_props(args@, opt, 0);
    }
    match find_option(args, opt) {
        None => if required {
            Err(TaskError::MissingRequiredOption(opt))
        } else {
            Ok(task)
        },
        Some(i) => {
            if i >= args.len() - 1 {
                Err(TaskError::MissingOptionValue(opt))
            } else {
                opt.update_task(task, &args[i + 1])
            }
        },
    }
}

fn scan_options(
    args: &Vec<String>,
    task: TaskBuilder,
    opts: &Vec<CommandOptions>,
    required: bool,
) -> (r: Result<TaskBuilder, TaskError>)
    ensures
        match r {
            Ok(b) => scan_fold(args@, task@, opts@, required) == Result::<
                BuilderView,
                TaskError,
            >::Ok(b@),
            Err(e) => scan_fold(args@, task@, opts@, required) == Result::<
                BuilderView,
                TaskError,
            >::Err(e),
        },
{
    let ghost b0 = task@;
    let mut cur = task;
    let mut i: usize = 0;
    proof {
        assert(opts@.skip(0) =~= opts@);
    }
    #[verifier::loop_isolation(false)]
    while i < opts.len()
        invariant
            0 <= i <= opts@.len(),
            scan_fold(args@, b0, opts@, required) == scan_fold(
                args@,
                cur@,
                opts@.skip(i as int),
                required,
            ),
        decreases opts@.len() - i,
    {
        proof {
            assert(opts@.skip(i as int)[0] == opts@[i as int]);
            assert(opts@.skip(i as int).skip(1) =~= opts@.skip(i as int + 1));
        }
        let ghost prev = cur@;
        let o = opts[i];
        cur = match scan_one(args, cur, o, required) {
            Ok(b) => {
                proof {
                    assert(scan_fold(args@, prev, opts@.skip(i as int), required) == scan_fold(
                        args@,
                        b@,
                        opts@.skip(i as int + 1),
                        required,
                    ));
                }
                b
            },
            Err(e) => {
                proof {
                    assert(scan_fold(args@, prev, opts@.skip(i as int), required) == Result::<
                        BuilderView,
                        TaskError,
                    >::Err(e));
                }
                return Err(e);
            },
        };
        i += 1;
    }
    proof {
        assert(opts@.skip(i as int) =~= Seq::<CommandOptions>::empty());
    }
    Ok(cur)
}

impl CommandOptions {
    /// The ordered required-option descriptors of a command.
    pub fn required(command: CommandFlags) -> (r: Vec<CommandOptions>)
        ensures
            r@ == spec_required(command),
    {
        match command {
            CommandFlags::NewTask => {
                let mut v: Vec<CommandOptions> = Vec::new();
                v.push(CommandOptions::TimeEstimate);
                proof {
                    assert(v@ =~= spec_required(command));
                }
                v
            },
        }
    }

    /// The ordered optional-option descriptors of a command.
    pub fn optional(command: CommandFlags) -> (r: Vec<CommandOptions>)
        ensures
            r@ == spec_optional(command),
    {
        match command {
            CommandFlags::NewTask => {
                let mut v: Vec<CommandOptions> = Vec::new();
                v.push(CommandOptions::Description);
                v.push(CommandOptions::Priority);
                proof {
                    assert(v@ =~= spec_optional(command));
                }
                v
            },
        }
    }
}

/// The outcome of the new-task command on an argument list that meets its
/// minimum length: the token after the command flag is the title, the
/// required and then the optional options are scanned, and the builder is
/// committed at `now`.
pub open spec fn create_outcome(args: Seq<String>, now: int) -> Result<TaskView, TaskError> {
    let seeded = BuilderView { title: Some(args[2]@), ..new_builder_view() };
    match scan_fold(args, seeded, spec_required(CommandFlags::NewTask), true) {
        Result::Err(e) => Result::Err(e),
        Result::Ok(b1) => match scan_fold(args, b1, spec_optional(CommandFlags::NewTask), false) {
            Result::Err(e) => Result::Err(e),
            Result::Ok(b2) => build_outcome(b2, now),
        },
    }
}

/// The outcome of the new-task command on any argument list: a list under
/// the minimum length is rejected before any scan.
pub open spec fn new_task_outcome(args: Seq<String>, now: int) -> Result<TaskView, TaskError> {
    if args.len() < spec_min_length(CommandFlags::NewTask) {
        Result::Err(TaskError::NotEnoughArguments)
    } else {
        create_outcome(args, now)
    }
}

/// On a long-enough argument list in which no token spells the time
/// estimate's flags, the new-task command fails by naming that required
/// option.
pub proof fn lemma_missing_time_estimate(args: Seq<String>, now: int)
    requires
        args.len() >= spec_min_length(CommandFlags::NewTask),
        forall|k: int| 0 <= k < args.len() ==> !opt_flag_match(
            CommandOptions::TimeEstimate,
            #[trigger] args[k]@,
        ),
    ensures
        new_task_outcome(args, now) == Result::<TaskView, TaskError>::Err(
            TaskError::MissingRequiredOption(CommandOptions::TimeEstimate),
        ),
{
    lemma_find_from_props(args, CommandOptions::TimeEstimate, 0);
    assert(find_flag(args, CommandOptions::TimeEstimate) is None);
    assert(spec_required(CommandFlags::NewTask)[0] == CommandOptions::TimeEstimate);
}

/// A scan never touches the builder's identifier, title or status slots:
/// the option table has no option that stages them.
pub proof fn lemma_scan_fold_preserves(
    args: Seq<String>,
    b: BuilderView,
    opts: Seq<CommandOptions>,
    required: bool,
)
    ensures
        match scan_fold(args, b, opts, required) {
            Result::Ok(b2) => b2.id == b.id && b2.title == b.title && b2.status == b.status,
            Result::Err(_) => true,
        },
    decreases opts.len(),
{
    if opts.len() > 0 {
        match scan_one_outcome(args, b, opts[0], required) {
            Result::Err(_) => {},
            Result::Ok(b2) => {
                lemma_scan_fold_preserves(args, b2, opts.skip(1), required);
            },
        }
    }
}

/// Every task the new-task command yields carries the positional title —
/// the token after the command flag — with the default identifier, the
/// ongoing status, and both stamps equal to the injected instant.
pub proof fn lemma_new_task_success_fields(args: Seq<String>, now: int, t: TaskView)
    requires
        new_task_outcome(args, now) == Result::<TaskView, TaskError>::Ok(t),
    ensures
        t.title == args[2]@,
        t.status == TaskStatus::OnGoing,
        t.id == 0,
        t.created_at == now,
        t.updated_at == now,
{
    let seeded = BuilderView { title: Some(args[2]@), ..new_builder_view() };
    lemma_scan_fold_preserves(args, seeded, spec_required(CommandFlags::NewTask), true);
    match scan_fold(args, seeded, spec_required(CommandFlags::NewTask), true) {
        Result::Err(_) => {},
        Result::Ok(b1) => {
            lemma_scan_fold_preserves(args, b1, spec_optional(CommandFlags::NewTask), false);
        },
    }
}

impl CommandFlags {
    /// The minimum argument-list length of this command.
    pub fn min_length(&self) -> (r: usize)
        ensures
            r as int == spec_min_length(*self),
    {
        match self {
            CommandFlags::NewTask => {
                let req = CommandOptions::required(CommandFlags::NewTask);
                3 + req.len()
            },
        }
    }

    /// Populates a builder from the argument list — the positional title,
    /// then the required and the optional option scans — and commits it at
    /// the instant `now`.
    pub fn create(&self, args: &Vec<String>, now: i64) -> (r: Result<Task, TaskError>)
        requires
            args@.len() >= spec_min_length(*self),
        ensures
            match r {
                Ok(t) => create_outcome(args@, now as int) == Result::<TaskView, TaskError>::Ok(
                    t@,
                ),
                Err(e) => create_outcome(args@, now as int) == Result::<TaskView, TaskError>::Err(
                    e,
                ),
            },
    {
        let mut task = TaskBuilder::new();
        task = task.title(args[2].clone());
        let required_options = CommandOptions::required(CommandFlags::NewTask);
        let optional_options = CommandOptions::optional(CommandFlags::NewTask);
        task = match scan_options(args, task, &required_options, true) {
            Ok(b) => b,
            Err(e) => {
                return Err(e);
            },
        };
        task = match scan_options(args, task, &optional_options, false) {
            Ok(b) => b,
            Err(e) => {
                return Err(e);
            },
        };
        task.build(now)
    }
}

/// A top-level command: its flag spelling, its identification from the
/// argument list, and its execution against an injected instant.
pub trait Command: Sized {
    /// The flag token that selects this command.
    spec fn flag_spec(&self) -> Seq<char>;

    /// The command the argument list's second token selects, if any.
    spec fn parse_spec(args: Seq<String>) -> Option<Self>;

    /// The outcome of this command on the argument list at the instant
    /// `now`.
    spec fn outcome_spec(&self, args: Seq<String>, now: int) -> Result<TaskView, TaskError>;

    fn flag(&self) -> (r: String)
        ensures
            r@ == self.flag_spec(),
    ;

    fn parse(args: &Vec<String>) -> (r: Option<Self>)
        ensures
            r == Self::parse_spec(args@),
    ;

    fn execute(&self, args: &Vec<String>, now: i64) -> (r: Result<Task, TaskError>)
        ensures
            match r {
                Ok(t) => self.outcome_spec(args@, now as int) == Result::<
                    TaskView,
                    TaskError,
                >::Ok(t@),
                Err(e) => self.outcome_spec(args@, now as int) == Result::<
                    TaskView,
                    TaskError,
                >::Err(e),
            },
    ;
}

impl Command for CommandFlags {
    open spec fn flag_spec(&self) -> Seq<char> {
        "--new"@
    }

    open spec fn parse_spec(args: Seq<String>) -> Option<CommandFlags> {
        if args.len() >= 2 && args[1]@ == "--new"@ {
            Some(CommandFlags::NewTask)
        } else {
            None
        }
    }

    open spec fn outcome_spec(&self, args: Seq<String>, now: int) -> Result<TaskView, TaskError> {
        new_task_outcome(args, now)
    }

    fn flag(&self) -> (r: String) {
        "--new".to_owned()
    }

    fn parse(args: &Vec<String>) -> (r: Option<CommandFlags>) {
        if args.len() < 2 {
            return None;
        }
        if str_eq(args[1].as_str(), "--new") {
            Some(CommandFlags::NewTask)
        } else {
            None
        }
    }

    fn execute(&self, args: &Vec<String>, now: i64) -> (r: Result<Task, TaskError>) {
        if args.len() < self.min_length() {
            return Err(TaskError::NotEnoughArguments);
        }
        self.create(args, now)
    }
}

/// Whether an executed result is the command's outcome at the instant
/// `now`.
pub open spec fn outcome_matches(
    c: CommandFlags,
    args: Seq<String>,
    now: i64,
    res: Result<Task, TaskError>,
) -> bool {
    match res {
        Ok(t) => c.outcome_spec(args, now as int) == Result::<TaskView, TaskError>::Ok(t@),
        Err(e) => c.outcome_spec(args, now as int) == Result::<TaskView, TaskError>::Err(e),
    }
}

/// Runs one command-line invocation: identifies the command, samples the
/// clock once, and executes against that instant. `None` is the "no command
/// identified" outcome, left to other front-ends; it is not a failure.
pub fn dispatch(args: &Vec<String>) -> (r: Option<Result<Task, TaskError>>)
    ensures
        match r {
            None => CommandFlags::parse_spec(args@) is None,
            Some(res) => CommandFlags::parse_spec(args@) matches Some(c) && (exists|now: i64|
                outcome_matches(c, args@, now, res)),
        },
{
    let command = match CommandFlags::parse(args) {
        Some(c) => c,
        None => {
            return None;
        },
    };
    let now = current_timestamp();
    let result = command.execute(args, now);
    proof {
        assert(outcome_matches(command, args@, now, result));
    }
    Some(result)
}

} // verus!
