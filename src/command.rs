//! The command registry: every command that may run on the host, each tied to
//! one fixed binary and one fixed list of arguments.

use vstd::prelude::*;

verus! {

/// A command that the host is allowed to run.
#[derive(Clone, Copy, Debug, PartialEq, Eq, Structural)]
pub enum AllowedCommand {
    Ls,
    Pwd,
    TmuxList,
    Shutdown,
}

/// The binary that a command runs.
pub open spec fn command_binary(c: AllowedCommand) -> Seq<char> {
    match c {
        AllowedCommand::Ls => "ls"@,
        AllowedCommand::Pwd => "pwd"@,
        AllowedCommand::TmuxList => "tmux"@,
        AllowedCommand::Shutdown => "shutdown"@,
    }
}

/// The arguments that a command's binary is given, in order.
pub open spec fn command_args(c: AllowedCommand) -> Seq<Seq<char>> {
    match c {
        AllowedCommand::Ls => seq![],
        AllowedCommand::Pwd => seq![],
        AllowedCommand::TmuxList => seq!["list-sessions"@],
        AllowedCommand::Shutdown => seq!["-h"@, "now"@],
    }
}

/// The text by which a command is shown to a user.
pub open spec fn command_text(c: AllowedCommand) -> Seq<char> {
    match c {
        AllowedCommand::Ls => "ls"@,
        AllowedCommand::Pwd => "pwd"@,
        AllowedCommand::TmuxList => "tmux list"@,
        AllowedCommand::Shutdown => "shutdown"@,
    }
}

/// The views of a list of string slices.
pub open spec fn strs_view(v: Seq<&str>) -> Seq<Seq<char>> {
    v.map_values(|s: &str| s@)
}

impl AllowedCommand {
    /// The binary that this command runs.
    pub fn value(&self) -> (r: &'static str)
        ensures
            r@ == command_binary(*self),
    {
        match *self {
            AllowedCommand::Ls => "ls",
            AllowedCommand::Pwd => "pwd",
            AllowedCommand::Shutdown => "shutdown",
            AllowedCommand::TmuxList => "tmux",
        }
    }

    /// The arguments of this command's binary; `None` where it takes none.
    pub fn args(&self) -> (r: Option<Vec<&'static str>>)
        ensures
            r is None <==> command_args(*self).len() == 0,
            r matches Some(v) ==> strs_view(v@) == command_args(*self),
    {
        match *self {
            AllowedCommand::Ls => None,
            AllowedCommand::Pwd => None,
            AllowedCommand::Shutdown => {
                let v: Vec<&'static str> = vec!["-h", "now"];
                assert(strs_view(v@) =~= command_args(*self));
                Some(v)
            },
            AllowedCommand::TmuxList => {
                let v: Vec<&'static str> = vec!["list-sessions"];
                assert(strs_view(v@) =~= command_args(*self));
                Some(v)
            },
        }
    }

    /// The text by which this command is shown to a user.
    pub fn to_string(&self) -> (r: String)
        ensures
            r@ == command_text(*self),
    {
        match *self {
            AllowedCommand::Ls => String::from_str("ls"),
            AllowedCommand::Pwd => String::from_str("pwd"),
            AllowedCommand::Shutdown => String::from_str("shutdown"),
            AllowedCommand::TmuxList => String::from_str("tmux list"),
        }
    }
}

/// The registry is closed and fixed: each command runs exactly the binary and
/// arguments of this table, whatever request chose it.
pub proof fn lemma_registry_table(c: AllowedCommand)
    ensures
        c == AllowedCommand::Ls ==> command_binary(c) == "ls"@ && command_args(c) == Seq::<
            Seq<char>,
        >::empty(),
        c == AllowedCommand::Pwd ==> command_binary(c) == "pwd"@ && command_args(c) == Seq::<
            Seq<char>,
        >::empty(),
        c == AllowedCommand::TmuxList ==> command_binary(c) == "tmux"@ && command_args(c) == seq![
            "list-sessions"@,
        ],
        c == AllowedCommand::Shutdown ==> command_binary(c) == "shutdown"@ && command_args(c)
            == seq!["-h"@, "now"@],
        command_binary(c) == "ls"@ || command_binary(c) == "pwd"@ || command_binary(c) == "tmux"@
            || command_binary(c) == "shutdown"@,
{
    assert(seq![] =~= Seq::<Seq<char>>::empty());
}

} // verus!
