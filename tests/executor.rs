use control_room::{
    record_cmd, run_allowed_op, run_cmd, AllowedCommand, AllowedOperation, ExecError, Execution,
    ProcessOutput, RemoteOp,
};

fn finished(stdout: &str, stderr: &str, success: bool) -> Result<ProcessOutput, String> {
    Ok(ProcessOutput { stdout: stdout.as_bytes().to_vec(), stderr: stderr.as_bytes().to_vec(), success })
}

#[test]
fn noop_succeeds_without_a_subprocess() {
    match run_allowed_op(AllowedOperation::Noop) {
        Execution::Finished(Ok(rec)) => {
            assert_eq!(rec.op, AllowedOperation::Noop);
            assert_eq!(rec.output.as_deref(), Some("Nothing was done"));
            assert_eq!(rec.status, Some(true));
            assert!(rec.is_finished());
        }
        other => panic!("unexpected {:?}", other),
    }
}

#[test]
fn script_is_unsupported() {
    let r = run_allowed_op(AllowedOperation::ShellScript);
    assert_eq!(r, Execution::Finished(Err(ExecError::Unsupported)));
    assert_eq!(ExecError::Unsupported.to_string(), "Not Supported yet");
}

#[test]
fn shell_command_asks_for_a_launch() {
    for c in [AllowedCommand::Ls, AllowedCommand::Pwd, AllowedCommand::TmuxList, AllowedCommand::Shutdown] {
        assert_eq!(run_allowed_op(AllowedOperation::ShellCommand(c)), Execution::Spawn(c));
    }
}

#[test]
fn output_joins_stdout_and_stderr() {
    let r = record_cmd(AllowedCommand::Ls, finished("a\nb\n", "warn", true), 42).unwrap();
    assert_eq!(r.op, AllowedOperation::ShellCommand(AllowedCommand::Ls));
    assert_eq!(r.output.as_deref(), Some("a\nb\n\nwarn"));
    assert_eq!(r.status, Some(true));
    assert_eq!(r.timestamp, 42);
}

#[test]
fn shutdown_failure_is_recorded() {
    let r = run_cmd(AllowedCommand::Shutdown, finished("", "permission denied", false)).unwrap();
    assert_eq!(r.op, AllowedOperation::ShellCommand(AllowedCommand::Shutdown));
    assert_eq!(r.output.as_deref(), Some("\npermission denied"));
    assert_eq!(r.status, Some(false));
}

#[test]
fn spawn_failure_is_an_error() {
    let r = record_cmd(AllowedCommand::TmuxList, Err("No such file or directory".to_string()), 1);
    assert_eq!(r, Err(ExecError::Spawn("No such file or directory".to_string())));
    assert_eq!(r.unwrap_err().to_string(), "No such file or directory");
}

#[test]
fn invalid_stdout_is_a_decode_error() {
    let p = ProcessOutput { stdout: vec![0xff, 0xfe], stderr: Vec::new(), success: true };
    assert_eq!(record_cmd(AllowedCommand::Ls, Ok(p), 1), Err(ExecError::Decode));
}

#[test]
fn invalid_stderr_is_a_decode_error() {
    let p = ProcessOutput { stdout: b"ok".to_vec(), stderr: vec![0xc3], success: true };
    assert_eq!(run_cmd(AllowedCommand::Pwd, Ok(p)), Err(ExecError::Decode));
    assert_eq!(ExecError::Decode.to_string(), "failed to parse output");
}

#[test]
fn multibyte_output_is_decoded() {
    let r = record_cmd(AllowedCommand::Ls, finished("é", "", true), 0).unwrap();
    assert_eq!(r.output.as_deref(), Some("é\n"));
}

#[test]
fn pending_record_has_no_result() {
    let r = RemoteOp::from_op(AllowedOperation::ShellCommand(AllowedCommand::Pwd));
    assert_eq!(r.output, None);
    assert_eq!(r.status, None);
    assert!(!r.is_finished());
}
