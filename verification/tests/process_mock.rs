use sham::std_process::{mock_exit, Command, FakeCommand, MockCommand, MockStdio, OsError};

fn args_of(list: &[&str]) -> Vec<String> {
    list.iter().map(|text| text.to_string()).collect()
}

#[test]
fn full_script_in_order_is_satisfied() {
    let mut command = FakeCommand::new("ls", args_of(&["-l", "/tmp"]));
    command
        .args(args_of(&["-l", "/tmp"]))
        .stdin(MockStdio::inherit())
        .stdout(MockStdio::inherit())
        .stderr(MockStdio::inherit());
    assert!(!command.failed());
    let error = command.exec().unwrap();
    assert_eq!(error.raw_os_error(), Some(0));
    assert!(command.satisfied());
    assert!(!command.failed());
}

#[test]
fn fresh_command_is_not_satisfied() {
    let command = FakeCommand::new("ls", args_of(&[]));
    assert!(!command.satisfied());
    assert!(!command.failed());
}

#[test]
fn exec_out_of_place_gives_no_error() {
    let mut command = FakeCommand::new("ls", args_of(&["-l"]));
    assert_eq!(command.exec(), None);
    assert!(command.failed());

    let mut command = FakeCommand::new("ls", args_of(&["-l"]));
    command.args(args_of(&["-l"]));
    assert_eq!(command.exec(), None);
    assert!(command.failed());

    let mut command = FakeCommand::new("ls", args_of(&["-l"]));
    command.args(args_of(&["-l"])).stdin(MockStdio::inherit());
    assert_eq!(command.exec(), None);
    assert!(command.failed());
}

#[test]
fn a_refused_call_is_known_at_once() {
    let mut command = FakeCommand::new("ls", args_of(&["-l"]));
    command.args(args_of(&["-l"]));
    assert!(!command.failed());
    command.stdout(MockStdio::inherit());
    assert!(command.failed());
    command.stdin(MockStdio::inherit());
    assert!(command.failed());

    let mut command = FakeCommand::new("ls", args_of(&["-l"]));
    command.args(args_of(&["-a"]));
    assert!(command.failed());
}

#[test]
fn empty_argument_list_can_be_expected() {
    let mut command = FakeCommand::new("true", Vec::new());
    command.args(Vec::new());
    command.stdin(MockStdio::inherit());
    command.stdout(MockStdio::inherit());
    command.stderr(MockStdio::inherit());
    command.exec();
    assert!(command.satisfied());
}

#[test]
fn omitting_args_fails() {
    let mut command = FakeCommand::new("ls", args_of(&["-l"]));
    command.stdin(MockStdio::inherit());
    command.stdout(MockStdio::inherit());
    command.stderr(MockStdio::inherit());
    command.exec();
    assert!(!command.satisfied());
}

#[test]
fn omitting_stdin_fails() {
    let mut command = FakeCommand::new("ls", args_of(&["-l"]));
    command.args(args_of(&["-l"]));
    command.stdout(MockStdio::inherit());
    command.stderr(MockStdio::inherit());
    command.exec();
    assert!(!command.satisfied());
}

#[test]
fn omitting_stdout_fails() {
    let mut command = FakeCommand::new("ls", args_of(&["-l"]));
    command.args(args_of(&["-l"]));
    command.stdin(MockStdio::inherit());
    command.stderr(MockStdio::inherit());
    command.exec();
    assert!(!command.satisfied());
}

#[test]
fn omitting_stderr_fails() {
    let mut command = FakeCommand::new("ls", args_of(&["-l"]));
    command.args(args_of(&["-l"]));
    command.stdin(MockStdio::inherit());
    command.stdout(MockStdio::inherit());
    command.exec();
    assert!(!command.satisfied());
}

#[test]
fn omitting_exec_fails() {
    let mut command = FakeCommand::new("ls", args_of(&["-l"]));
    command
        .args(args_of(&["-l"]))
        .stdin(MockStdio::inherit())
        .stdout(MockStdio::inherit())
        .stderr(MockStdio::inherit());
    assert!(!command.satisfied());
}

#[test]
fn exec_before_stderr_fails() {
    let mut command = FakeCommand::new("ls", args_of(&["-l"]));
    command.args(args_of(&["-l"]));
    command.stdin(MockStdio::inherit());
    command.stdout(MockStdio::inherit());
    let error = command.exec();
    command.stderr(MockStdio::inherit());
    assert_eq!(error, None);
    assert!(command.failed());
    assert!(!command.satisfied());
}

#[test]
fn other_arguments_fail() {
    let mut command = FakeCommand::new("ls", args_of(&["-l", "/tmp"]));
    command.args(args_of(&["-l", "/var"]));
    command.stdin(MockStdio::inherit());
    command.stdout(MockStdio::inherit());
    command.stderr(MockStdio::inherit());
    command.exec();
    assert!(!command.satisfied());
}

#[test]
fn arguments_in_other_order_fail() {
    let mut command = FakeCommand::new("ls", args_of(&["-l", "/tmp"]));
    command.args(args_of(&["/tmp", "-l"]));
    command.stdin(MockStdio::inherit());
    command.stdout(MockStdio::inherit());
    command.stderr(MockStdio::inherit());
    command.exec();
    assert!(!command.satisfied());
}

#[test]
fn shorter_argument_list_fails() {
    let mut command = FakeCommand::new("ls", args_of(&["-l", "/tmp"]));
    command.args(args_of(&["-l"]));
    command.stdin(MockStdio::inherit());
    command.stdout(MockStdio::inherit());
    command.stderr(MockStdio::inherit());
    command.exec();
    assert!(!command.satisfied());
}

#[test]
fn a_call_too_many_fails() {
    let mut command = FakeCommand::new("ls", args_of(&["-l"]));
    command.args(args_of(&["-l"]));
    command.stdin(MockStdio::inherit());
    command.stdout(MockStdio::inherit());
    command.stderr(MockStdio::inherit());
    assert_eq!(command.exec(), Some(OsError::from_raw_os_error(0)));
    assert!(command.satisfied());
    assert_eq!(command.exec(), None);
    assert!(!command.satisfied());
}

#[test]
fn a_repeated_call_fails() {
    let mut command = FakeCommand::new("ls", args_of(&["-l"]));
    command.args(args_of(&["-l"]));
    command.stdin(MockStdio::inherit());
    command.stdin(MockStdio::inherit());
    command.stdout(MockStdio::inherit());
    command.stderr(MockStdio::inherit());
    command.exec();
    assert!(!command.satisfied());
}

#[test]
fn failure_is_not_undone_by_later_calls() {
    let mut command = FakeCommand::new("ls", args_of(&["-l"]));
    command.stdout(MockStdio::inherit());
    command.args(args_of(&["-l"]));
    command.stdin(MockStdio::inherit());
    command.stdout(MockStdio::inherit());
    command.stderr(MockStdio::inherit());
    command.exec();
    assert!(!command.satisfied());
}

#[test]
fn mock_command_follows_the_script_through_the_trait() {
    fn drive<C: Command>(command: &mut C, args: Vec<String>) -> Option<OsError> {
        command.args(args);
        command.stdin(MockStdio::inherit());
        command.stdout(MockStdio::inherit());
        command.stderr(MockStdio::inherit());
        command.exec()
    }
    let mut command = MockCommand::new(args_of(&["a", "b"]));
    assert!(!command.satisfied());
    let error = drive(&mut command, args_of(&["a", "b"]));
    assert_eq!(error, Some(OsError::from_raw_os_error(0)));
    assert!(command.satisfied());
    assert!(!command.failed());
    assert_eq!(drive(&mut command, args_of(&["a", "b"])), None);
    assert!(command.failed());
}

#[test]
fn os_error_keeps_its_number() {
    assert_eq!(OsError::from_raw_os_error(0).raw_os_error(), Some(0));
    assert_eq!(OsError::from_raw_os_error(2).raw_os_error(), Some(2));
    assert_eq!(OsError::from_raw_os_error(-1).raw_os_error(), Some(-1));
    assert_ne!(OsError::from_raw_os_error(1), OsError::from_raw_os_error(2));
}

#[test]
fn mock_exit_returns() {
    mock_exit(0);
    mock_exit(1);
    mock_exit(i32::MIN);
}
