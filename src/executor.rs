//! The executor: what each operation yields, and how a finished subprocess
//! becomes a result record.

use vstd::prelude::*;
use vstd::utf8::{decode_utf8, valid_utf8};
use crate::clock::now_millis;
use crate::command::AllowedCommand;
use crate::operation::{AllowedOperation, ExecError, ProcessOutput, RemoteOp, output_is};

verus! {

/// What is left to do for an operation once it has been accepted.
#[derive(Debug, PartialEq)]
pub enum Execution {
    /// Launch the command's binary with its arguments, then hand what the
    /// process left behind to `run_cmd`.
    Spawn(AllowedCommand),
    /// The operation is over, without a subprocess.
    Finished(Result<RemoteOp, ExecError>),
}

/// The output that a no-op reports.
pub open spec fn noop_text() -> Seq<char> {
    "Nothing was done"@
}

/// The combined output of a command: standard output, a line break, then
/// standard error.
pub open spec fn joined_output(out: Seq<char>, err: Seq<char>) -> Seq<char> {
    out + "\n"@ + err
}

/// What `run_cmd` owes for `cmd`, given what the launch gave and the time of
/// completion.
pub open spec fn cmd_outcome(
    cmd: AllowedCommand,
    spawned: Result<ProcessOutput, String>,
    timestamp: i64,
    r: Result<RemoteOp, ExecError>,
) -> bool {
    match spawned {
        Err(msg) => r == Err::<RemoteOp, ExecError>(ExecError::Spawn(msg)),
        Ok(p) => if valid_utf8(p.stdout@) && valid_utf8(p.stderr@) {
            &&& r matches Ok(rec)
            &&& rec.op == AllowedOperation::ShellCommand(cmd)
            &&& output_is(rec, joined_output(decode_utf8(p.stdout@), decode_utf8(p.stderr@)))
            &&& rec.status == Some(p.success)
            &&& rec.timestamp == timestamp
        } else {
            r == Err::<RemoteOp, ExecError>(ExecError::Decode)
        },
    }
}

/// What `run_allowed_op` owes for `op`, whatever the time of the call.
pub open spec fn op_outcome(op: AllowedOperation, r: Execution) -> bool {
    match op {
        AllowedOperation::Noop => {
            &&& r matches Execution::Finished(Ok(rec))
            &&& rec.op == op
            &&& output_is(rec, noop_text())
            &&& rec.status == Some(true)
        },
        AllowedOperation::ShellScript => r == Execution::Finished(Err(ExecError::Unsupported)),
        AllowedOperation::ShellCommand(c) => r == Execution::Spawn(c),
    }
}

/// Relies on `String::from_utf8`: the text that the bytes encode, or `None`
/// where they are not valid UTF-8.
#[verifier::external_body]
fn decode_text(bytes: Vec<u8>) -> (r: Option<String>)
    ensures
        r is Some <==> valid_utf8(bytes@),
        r matches Some(s) ==> s@ == decode_utf8(bytes@),
{
    String::from_utf8(bytes).ok()
}

/// The record of `cmd` finished at `timestamp`, from what launching its binary
/// gave: the launch error, or the process's output and exit status.
pub fn record_cmd(cmd: AllowedCommand, spawned: Result<ProcessOutput, String>, timestamp: i64) -> (r:
    Result<RemoteOp, ExecError>)
    ensures
        cmd_outcome(cmd, spawned, timestamp, r),
{
    match spawned {
        Err(msg) => Err(ExecError::Spawn(msg)),
        Ok(p) => {
            let success = p.success;
            let out = decode_text(p.stdout);
            let err = decode_text(p.stderr);
            match (out, err) {
                (Some(out), Some(err)) => {
                    let mut text = out;
                    text.append("\n");
                    text.append(err.as_str());
                    Ok(
                        RemoteOp {
                            op: AllowedOperation::ShellCommand(cmd),
                            output: Some(text),
                            status: Some(success),
                            timestamp: timestamp,
                        },
                    )
                },
                _ => Err(ExecError::Decode),
            }
        },
    }
}

/// The record of `cmd`, stamped with the time at which this is called.
pub fn run_cmd(cmd: AllowedCommand, spawned: Result<ProcessOutput, String>) -> (r: Result<
    RemoteOp,
    ExecError,
>)
    ensures
        exists|t: i64| #[trigger] cmd_outcome(cmd, spawned, t, r),
{
    let t = now_millis();
    let r = record_cmd(cmd, spawned, t);
    assert(cmd_outcome(cmd, spawned, t, r));
    r
}

/// What is left to do for `op`: a no-op is over at once and succeeds, a script
/// is refused, and a command's binary is to be launched.
pub fn run_allowed_op(op: AllowedOperation) -> (r: Execution)
    ensures
        op_outcome(op, r),
{
    match op {
        AllowedOperation::ShellCommand(c) => Execution::Spawn(c),
        AllowedOperation::ShellScript => Execution::Finished(Err(ExecError::Unsupported)),
        AllowedOperation::Noop => Execution::Finished(
            Ok(
                RemoteOp {
                    op: op,
                    output: Some(String::from_str("Nothing was done")),
                    status: Some(true),
                    timestamp: now_millis(),
                },
            ),
        ),
    }
}

} // verus!
