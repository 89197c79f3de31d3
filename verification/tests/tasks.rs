use xtask::tasks::{
    exit_code, help_requested, is_help_argument, parse_task, Argument, RunStatus, Task,
};

fn text(value: &str) -> Argument {
    Argument::Utf8(value.to_owned())
}

#[test]
fn recognizes_command_help_arguments() {
    assert!(is_help_argument(&text("-h")));
    assert!(is_help_argument(&text("--help")));
    assert!(!is_help_argument(&text("help")));
}

#[test]
fn help_is_requested_only_by_the_first_argument() {
    assert!(help_requested(&[text("--help"), text("--suite")]));
    assert!(!help_requested(&[text("--suite"), text("--help")]));
    assert!(!help_requested(&[]));
    assert!(!help_requested(&[Argument::Raw(vec![0xff])]));
}

#[test]
fn passes_on_exit_codes_that_fit_in_a_byte() {
    assert_eq!(exit_code(RunStatus { code: Some(0) }), 0);
    assert_eq!(exit_code(RunStatus { code: Some(3) }), 3);
    assert_eq!(exit_code(RunStatus { code: Some(255) }), 255);
    assert_eq!(exit_code(RunStatus { code: Some(256) }), 1);
    assert_eq!(exit_code(RunStatus { code: Some(-1) }), 1);
    assert_eq!(exit_code(RunStatus { code: None }), 1);
    assert!(RunStatus { code: Some(0) }.success());
    assert!(!RunStatus { code: None }.success());
}

#[test]
fn reads_the_task_name() {
    assert_eq!(parse_task(None), Ok(Task::Help));
    for name in ["help", "-h", "--help"] {
        assert_eq!(parse_task(Some(&text(name))), Ok(Task::Help));
    }
    assert_eq!(parse_task(Some(&text("e2e"))), Ok(Task::E2e));
    assert_eq!(
        parse_task(Some(&text("release-smoke-test"))),
        Ok(Task::ReleaseSmokeTest)
    );
    assert_eq!(
        parse_task(Some(&text("deploy"))),
        Err("invalid task name: deploy".to_owned())
    );
    assert_eq!(
        parse_task(Some(&Argument::Raw(vec![0xfe]))),
        Err("task name must be valid UTF-8".to_owned())
    );
}
