use control_room::{AllowedCommand, AllowedOperation};

#[test]
fn registry_ls_runs_ls_without_arguments() {
    assert_eq!(AllowedCommand::Ls.value(), "ls");
    assert_eq!(AllowedCommand::Ls.args(), None);
}

#[test]
fn registry_pwd_runs_pwd_without_arguments() {
    assert_eq!(AllowedCommand::Pwd.value(), "pwd");
    assert_eq!(AllowedCommand::Pwd.args(), None);
}

#[test]
fn registry_tmux_lists_sessions() {
    assert_eq!(AllowedCommand::TmuxList.value(), "tmux");
    assert_eq!(AllowedCommand::TmuxList.args(), Some(vec!["list-sessions"]));
}

#[test]
fn registry_shutdown_halts_now() {
    assert_eq!(AllowedCommand::Shutdown.value(), "shutdown");
    assert_eq!(AllowedCommand::Shutdown.args(), Some(vec!["-h", "now"]));
}

#[test]
fn registry_is_pure() {
    for c in [AllowedCommand::Ls, AllowedCommand::Pwd, AllowedCommand::TmuxList, AllowedCommand::Shutdown] {
        assert_eq!(c.value(), c.value());
        assert_eq!(c.args(), c.args());
    }
}

#[test]
fn command_labels() {
    assert_eq!(AllowedCommand::Ls.to_string(), "ls");
    assert_eq!(AllowedCommand::Pwd.to_string(), "pwd");
    assert_eq!(AllowedCommand::TmuxList.to_string(), "tmux list");
    assert_eq!(AllowedCommand::Shutdown.to_string(), "shutdown");
}

#[test]
fn operation_labels() {
    assert_eq!(AllowedOperation::Noop.to_string(), "Reset");
    assert_eq!(AllowedOperation::ShellCommand(AllowedCommand::TmuxList).to_string(), "Cmd: tmux list");
    assert_eq!(AllowedOperation::ShellScript.to_string(), "Script: ");
}
