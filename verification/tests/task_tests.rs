use todo::{
    estimate_due_datetime, Command, CommandFlags, CommandOptions, Priority, Task, TaskBuilder,
    TaskError, TaskStatus,
};

const NOW: i64 = 1_700_000_000;

fn args_of(tokens: &[&str]) -> Vec<String> {
    tokens.iter().map(|t| t.to_string()).collect()
}

#[test]
fn test_duration_regex() {
    let should_pass_array: [&str; 10] =
        ["5m", "5h", "5d", "5w", "1m", "1h", "1d", "1w", "10m", "10h"];

    let should_fail_array: [&str; 10] = [
        "0w", "5", "5m5", "5h5", "5d5", "5w5", "1m1", "1h1", "1d1", "10m10",
    ];

    for test_str in should_pass_array.iter() {
        let matches = todo::time::is_valid_duration_token(test_str);
        if !matches {
            println!("Expected to match but failed: {}", test_str);
        }
        assert!(matches);
    }

    for test_str in should_fail_array.iter() {
        let matches = todo::time::is_valid_duration_token(test_str);
        if matches {
            println!("Expected to fail but matched: {}", test_str);
        }
        assert!(!matches);
    }
}

#[test]
fn test_estimate_due_datetime() {
    let test_cases = vec![
        ("5m", 5 * 60),
        ("5h", 5 * 60 * 60),
        ("5d", 5 * 24 * 60 * 60),
        ("5w", 5 * 7 * 24 * 60 * 60),
        ("1m", 60),
        ("1h", 60 * 60),
        ("1d", 24 * 60 * 60),
        ("1w", 7 * 24 * 60 * 60),
        ("10m", 10 * 60),
        ("10h", 10 * 60 * 60),
    ];

    for (input, expected_seconds) in test_cases {
        let result = estimate_due_datetime(input, NOW);
        assert_eq!(result, Ok(NOW + expected_seconds));
    }
}

#[test]
fn test_cli_command() {
    let args = vec![
        "path/to/robco".to_string(),
        "--new".to_string(),
        "Bring Snacks".to_string(),
    ];

    let bad_args = vec![
        "path/to/robco".to_string(),
        "this-is-not-a-command".to_string(),
        "Bring Snacks".to_string(),
    ];

    let command = CommandFlags::parse(&args);
    assert!(matches!(command, Some(CommandFlags::NewTask)));
    let bad_command = CommandFlags::parse(&bad_args);
    assert!(matches!(bad_command, None));
}

#[test]
fn test_task_builder() {
    let task = TaskBuilder::new()
        .id(1)
        .title("Bring Snacks".to_string())
        .description("Bring some snacks for the meeting".to_string())
        .due("1h".to_string())
        .build(NOW);

    assert!(task.is_ok());
    let task = task.unwrap();
    assert_eq!(task.id, 1);
    assert_eq!(task.title, "Bring Snacks");
    assert_eq!(
        task.description,
        Some("Bring some snacks for the meeting".to_string())
    );
    assert!(matches!(task.priority, Priority::Low));
    assert!(matches!(task.status, TaskStatus::OnGoing));
    assert_eq!(task.due, NOW + 3600);
}

#[test]
fn test_resolver_exact_values() {
    assert_eq!(estimate_due_datetime("5m", NOW), Ok(NOW + 5 * 60));
    assert_eq!(estimate_due_datetime("1w", NOW), Ok(NOW + 7 * 24 * 60 * 60));
    assert_eq!(estimate_due_datetime("10h", NOW), Ok(NOW + 10 * 60 * 60));
    assert_eq!(estimate_due_datetime("1m", -1000), Ok(-940));
}

#[test]
fn test_resolver_rejects_malformed() {
    for bad in ["", "m", "5", "0w", "5m5", "05m", "5x", " 5m", "5m ", "w5", "-5m"] {
        assert_eq!(
            estimate_due_datetime(bad, NOW),
            Err(TaskError::InvalidDurationFormat),
            "expected rejection of {:?}",
            bad
        );
    }
}

#[test]
fn test_resolver_out_of_range() {
    // the magnitude alone exceeds any 64-bit count of seconds
    assert_eq!(
        estimate_due_datetime("99999999999999999999m", 0),
        Err(TaskError::DurationOutOfRange)
    );
    // the scaled duration exceeds the range
    assert_eq!(
        estimate_due_datetime("9223372036854775807m", 0),
        Err(TaskError::DurationOutOfRange)
    );
    // the anchor leaves no room for one more minute
    assert_eq!(
        estimate_due_datetime("1m", i64::MAX - 10),
        Err(TaskError::DurationOutOfRange)
    );
    // exactly at the top of the range
    assert_eq!(
        estimate_due_datetime("1m", i64::MAX - 60),
        Ok(i64::MAX)
    );
}

#[test]
fn test_build_defaults() {
    let task = TaskBuilder::new()
        .title("T".to_string())
        .due("2d".to_string())
        .build(NOW)
        .unwrap();
    assert_eq!(task.id, 0);
    assert!(matches!(task.priority, Priority::Low));
    assert!(matches!(task.status, TaskStatus::OnGoing));
    assert_eq!(task.description, None);
    assert_eq!(task.created_at, task.updated_at);
    assert_eq!(task.created_at, NOW);
    assert_eq!(task.due, NOW + 2 * 24 * 60 * 60);
}

#[test]
fn test_build_missing_title() {
    let r = TaskBuilder::new()
        .description("something".to_string())
        .due("1h".to_string())
        .build(NOW);
    assert_eq!(r.map(|t| t.id), Err(TaskError::MissingTitle));
}

#[test]
fn test_build_missing_due() {
    let r = TaskBuilder::new().title("T".to_string()).build(NOW);
    assert_eq!(r.map(|t| t.id), Err(TaskError::MissingDue));
}

#[test]
fn test_build_bad_due_token() {
    let r = TaskBuilder::new()
        .title("T".to_string())
        .due("0w".to_string())
        .build(NOW);
    assert_eq!(r.map(|t| t.id), Err(TaskError::InvalidDurationFormat));
}

#[test]
fn test_execute_new_task() {
    let args = args_of(&["prog", "--new", "Bring Snacks", "-t", "1h"]);
    let task = CommandFlags::NewTask.execute(&args, NOW).unwrap();
    assert_eq!(task.title, "Bring Snacks");
    assert_eq!(task.due, NOW + 3600);
    assert_eq!(task.description, None);
    assert!(matches!(task.priority, Priority::Low));
    assert!(matches!(task.status, TaskStatus::OnGoing));
}

#[test]
fn test_execute_all_options() {
    let args = args_of(&[
        "prog", "--new", "Do Taxes", "--time", "2w", "--description", "forms", "--priority", "3",
    ]);
    let task = CommandFlags::NewTask.execute(&args, NOW).unwrap();
    assert_eq!(task.title, "Do Taxes");
    assert_eq!(task.due, NOW + 2 * 7 * 24 * 60 * 60);
    assert_eq!(task.description, Some("forms".to_string()));
    assert!(matches!(task.priority, Priority::High));
}

#[test]
fn test_execute_too_few_arguments() {
    let args = args_of(&["prog", "--new", "Bring Snacks"]);
    let r = CommandFlags::NewTask.execute(&args, NOW);
    assert_eq!(r.map(|t| t.id), Err(TaskError::NotEnoughArguments));
}

#[test]
fn test_execute_missing_required_option() {
    let args = args_of(&["prog", "--new", "Bring Snacks", "-d", "salty ones"]);
    let r = CommandFlags::NewTask.execute(&args, NOW);
    assert_eq!(
        r.map(|t| t.id),
        Err(TaskError::MissingRequiredOption(CommandOptions::TimeEstimate))
    );
}

#[test]
fn test_execute_missing_option_value() {
    let args = args_of(&["prog", "--new", "Bring Snacks", "-t"]);
    let r = CommandFlags::NewTask.execute(&args, NOW);
    assert_eq!(
        r.map(|t| t.id),
        Err(TaskError::MissingOptionValue(CommandOptions::TimeEstimate))
    );
}

#[test]
fn test_execute_empty_option_values() {
    let args = args_of(&["prog", "--new", "T", "-t", ""]);
    let r = CommandFlags::NewTask.execute(&args, NOW);
    assert_eq!(
        r.map(|t| t.id),
        Err(TaskError::InvalidOptionValue(CommandOptions::TimeEstimate))
    );

    let args = args_of(&["prog", "--new", "T", "-t", "1h", "-d", ""]);
    let r = CommandFlags::NewTask.execute(&args, NOW);
    assert_eq!(
        r.map(|t| t.id),
        Err(TaskError::InvalidOptionValue(CommandOptions::Description))
    );
}

#[test]
fn test_priority_levels() {
    for (raw, expected) in [
        ("1", Priority::Low),
        ("2", Priority::Medium),
        ("3", Priority::High),
    ] {
        let args = args_of(&["prog", "--new", "T", "-t", "1h", "-p", raw]);
        let task = CommandFlags::NewTask.execute(&args, NOW).unwrap();
        assert_eq!(task.priority, expected);
    }
    for raw in ["0", "4", "256", "two", "", "-1"] {
        let args = args_of(&["prog", "--new", "T", "-t", "1h", "-p", raw]);
        let r = CommandFlags::NewTask.execute(&args, NOW);
        assert_eq!(
            r.map(|t| t.id),
            Err(TaskError::InvalidOptionValue(CommandOptions::Priority)),
            "expected rejection of priority {:?}",
            raw
        );
    }
}

#[test]
fn test_priority_from_and_value() {
    assert_eq!(Priority::from(1), Priority::Low);
    assert_eq!(Priority::from(2), Priority::Medium);
    assert_eq!(Priority::from(3), Priority::High);
    assert_eq!(Priority::from(0), Priority::DoesNotExist);
    assert_eq!(Priority::from(4), Priority::DoesNotExist);
    assert_eq!(Priority::Low.value(), 1);
    assert_eq!(Priority::Medium.value(), 2);
    assert_eq!(Priority::High.value(), 3);
    assert_eq!(Priority::DoesNotExist.value(), 0);
}

#[test]
fn test_task_status_from() {
    assert!(matches!(TaskStatus::from(1), TaskStatus::OnGoing));
    assert!(matches!(TaskStatus::from(2), TaskStatus::Completed));
    assert!(matches!(TaskStatus::from(3), TaskStatus::Cancelled));
    assert!(matches!(TaskStatus::from(4), TaskStatus::Delayed));
}

#[test]
fn test_dispatch_outcomes() {
    let bogus = args_of(&["prog", "bogus", "Bring Snacks"]);
    assert!(matches!(todo::dispatch(&bogus), None));

    let good = args_of(&["prog", "--new", "Bring Snacks", "-t", "1h"]);
    match todo::dispatch(&good) {
        Some(Ok(task)) => assert_eq!(task.title, "Bring Snacks"),
        other => panic!("expected a task, got {:?}", other),
    }

    let short = args_of(&["prog", "--new", "Bring Snacks"]);
    match todo::dispatch(&short) {
        Some(Err(e)) => assert_eq!(e, TaskError::NotEnoughArguments),
        other => panic!("expected a failure, got {:?}", other),
    }
}

#[test]
fn test_task_new() {
    let task = Task::new(
        7,
        "Water plants".to_string(),
        Some("the ferns too".to_string()),
        Priority::Medium,
        TaskStatus::OnGoing,
        "3d".to_string(),
        NOW,
    )
    .unwrap();
    assert_eq!(task.id, 7);
    assert_eq!(task.title, "Water plants");
    assert_eq!(task.description, Some("the ferns too".to_string()));
    assert_eq!(task.due, NOW + 3 * 24 * 60 * 60);
    assert_eq!(task.created_at, NOW);
    assert_eq!(task.updated_at, NOW);

    let r = Task::new(
        8,
        "T".to_string(),
        None,
        Priority::Low,
        TaskStatus::OnGoing,
        "soon".to_string(),
        NOW,
    );
    assert_eq!(r.map(|t| t.id), Err(TaskError::InvalidDurationFormat));
}

#[test]
fn test_option_table_metadata() {
    assert_eq!(CommandOptions::Description.flag(), vec!["-d", "--description"]);
    assert_eq!(CommandOptions::Priority.flag(), vec!["-p", "--priority"]);
    assert_eq!(CommandOptions::TimeEstimate.flag(), vec!["-t", "--time"]);
    assert_eq!(
        CommandOptions::required(CommandFlags::NewTask),
        vec![CommandOptions::TimeEstimate]
    );
    assert_eq!(
        CommandOptions::optional(CommandFlags::NewTask),
        vec![CommandOptions::Description, CommandOptions::Priority]
    );
    assert_eq!(CommandFlags::NewTask.min_length(), 4);
    assert_eq!(CommandFlags::NewTask.flag(), "--new");
}

#[test]
fn test_update_task_direct() {
    let b = TaskBuilder::new();
    let b = CommandOptions::Description
        .update_task(b, &"notes".to_string())
        .unwrap();
    let r = CommandOptions::Priority.update_task(b, &"9".to_string());
    assert!(matches!(
        r,
        Err(TaskError::InvalidOptionValue(CommandOptions::Priority))
    ));
}
