use scheduler::config::{ConfigError, ConfigValue};
use scheduler::job::Job;
use scheduler::shell_command::ShellCommand;

#[test]
fn shell_command_new_keeps_its_fields() {
    let command = ShellCommand::new(
        "echo".to_string(),
        vec!["hello".to_string(), "world".to_string()],
    );

    assert_eq!(command.command(), "echo");
    assert_eq!(
        command.args(),
        &vec!["hello".to_string(), "world".to_string()]
    );
}

#[test]
fn missing_fields_read_as_neutral_defaults() {
    let value = ConfigValue::Obj(vec![]);

    let command = ShellCommand::new_from_value(&value);

    assert_eq!(command.command(), "");
    assert!(command.args().is_empty());
}

#[test]
fn mistyped_argument_reads_as_empty_string() {
    let value = ConfigValue::Obj(vec![
        ("command".to_string(), ConfigValue::Str("echo".to_string())),
        (
            "args".to_string(),
            ConfigValue::Arr(vec![
                ConfigValue::Str("ok".to_string()),
                ConfigValue::UInt(4),
            ]),
        ),
    ]);

    let command = ShellCommand::new_from_value(&value);

    assert_eq!(command.args(), &vec!["ok".to_string(), "".to_string()]);
}

#[test]
fn job_without_kind_defaults_to_shell_command() {
    let value = ConfigValue::Obj(vec![(
        "command".to_string(),
        ConfigValue::Str("echo".to_string()),
    )]);

    let job = Job::new_from_value(&value).unwrap();

    let Job::Shell(command) = &job;
    assert_eq!(command.command(), "echo");
}

#[test]
fn job_with_known_kind_is_accepted() {
    let value = ConfigValue::Obj(vec![
        ("kind".to_string(), ConfigValue::Str("shell-command".to_string())),
        ("command".to_string(), ConfigValue::Str("true".to_string())),
    ]);

    let job = Job::new_from_value(&value).unwrap();

    let Job::Shell(command) = &job;
    assert_eq!(command.command(), "true");
}

#[test]
fn job_with_unknown_kind_is_refused() {
    let value = ConfigValue::Obj(vec![(
        "kind".to_string(),
        ConfigValue::Str("smoke-signal".to_string()),
    )]);

    let derived = Job::new_from_value(&value);

    assert_eq!(derived, Err(ConfigError::UnknownJobKind));
}

#[test]
fn initiated_run_reports_success() {
    let command = ShellCommand::new("echo".to_string(), vec![]);

    let outcome = command.run_outcome(true);

    assert_eq!(outcome.unwrap().message(), "Notification thrown");
}

#[test]
fn failed_initiation_reports_an_error() {
    let command = ShellCommand::new("no-such-binary".to_string(), vec![]);

    let outcome = command.run_outcome(false);

    assert_eq!(outcome.unwrap_err().message(), "Notification failed to throw");
}

#[test]
fn one_failure_leaves_sibling_outcomes_alone() {
    let good = ShellCommand::new("echo".to_string(), vec![]);
    let bad = ShellCommand::new("no-such-binary".to_string(), vec![]);

    // The same job set, with the middle job's initiation failing in one run
    // and succeeding in the other: the siblings' outcomes are identical.
    let initiated_a = [true, false, true];
    let initiated_b = [true, true, true];
    let set = [&good, &bad, &good];

    let outcomes_a: Vec<bool> = set
        .iter()
        .zip(initiated_a.iter())
        .map(|(job, ok)| job.run_outcome(*ok).is_ok())
        .collect();
    let outcomes_b: Vec<bool> = set
        .iter()
        .zip(initiated_b.iter())
        .map(|(job, ok)| job.run_outcome(*ok).is_ok())
        .collect();

    assert_eq!(outcomes_a, vec![true, false, true]);
    assert_eq!(outcomes_b, vec![true, true, true]);
    assert_eq!(outcomes_a[0], outcomes_b[0]);
    assert_eq!(outcomes_a[2], outcomes_b[2]);
}
