//! The request and result records exchanged with the executor.

use vstd::prelude::*;
use crate::clock::now_millis;
use crate::command::{AllowedCommand, command_text};

verus! {

/// What a client may ask the host to do.
#[derive(Clone, Copy, Debug, PartialEq, Eq, Structural)]
pub enum AllowedOperation {
    Noop,
    ShellCommand(AllowedCommand),
    ShellScript,
}

/// The text by which an operation is shown to a user.
pub open spec fn operation_text(op: AllowedOperation) -> Seq<char> {
    match op {
        AllowedOperation::Noop => "Reset"@,
        AllowedOperation::ShellCommand(c) => "Cmd: "@ + command_text(c),
        AllowedOperation::ShellScript => "Script: "@,
    }
}

impl AllowedOperation {
    /// The text by which this operation is shown to a user.
    pub fn to_string(&self) -> (r: String)
        ensures
            r@ == operation_text(*self),
    {
        match *self {
            AllowedOperation::Noop => String::from_str("Reset"),
            AllowedOperation::ShellCommand(c) => {
                let name = c.to_string();
                String::from_str("Cmd: ").concat(name.as_str())
            },
            AllowedOperation::ShellScript => String::from_str("Script: "),
        }
    }
}

/// The record of one operation: what ran, its combined output, whether it
/// succeeded, and when it finished (milliseconds since the Unix epoch).
/// `output` and `status` are `None` only while the operation has not finished.
#[derive(Clone, Debug, PartialEq)]
pub struct RemoteOp {
    pub op: AllowedOperation,
    pub output: Option<String>,
    pub status: Option<bool>,
    pub timestamp: i64,
}

/// Whether a record's output is present and reads `text`.
pub open spec fn output_is(rec: RemoteOp, text: Seq<char>) -> bool {
    rec.output matches Some(s) && s@ == text
}

/// Whether a record holds the result of a finished operation.
pub open spec fn record_finished(rec: RemoteOp) -> bool {
    rec.output is Some && rec.status is Some
}

impl RemoteOp {
    /// A record of `op` that has not finished yet, stamped with the current time.
    pub fn from_op(op: AllowedOperation) -> (r: RemoteOp)
        ensures
            r.op == op,
            r.output is None,
            r.status is None,
    {
        RemoteOp { op: op, output: None, status: None, timestamp: now_millis() }
    }

    /// Whether the operation has finished, so that the record holds its result.
    pub fn is_finished(&self) -> (r: bool)
        ensures
            r == record_finished(*self),
    {
        self.output.is_some() && self.status.is_some()
    }
}

/// What a subprocess left behind once it exited.
#[derive(Clone, Debug, PartialEq)]
pub struct ProcessOutput {
    pub stdout: Vec<u8>,
    pub stderr: Vec<u8>,
    pub success: bool,
}

/// Why an operation produced no record.
#[derive(Clone, Debug, PartialEq)]
pub enum ExecError {
    /// The binary could not be launched; the message says why.
    Spawn(String),
    /// The subprocess wrote output that is not valid UTF-8.
    Decode,
    /// The operation is reserved and cannot run.
    Unsupported,
}

/// The message by which an error is shown to a user.
pub open spec fn error_text(e: ExecError) -> Seq<char> {
    match e {
        ExecError::Spawn(msg) => msg@,
        ExecError::Decode => "failed to parse output"@,
        ExecError::Unsupported => "Not Supported yet"@,
    }
}

impl ExecError {
    /// The message by which this error is shown to a user.
    pub fn to_string(&self) -> (r: String)
        ensures
            r@ == error_text(*self),
    {
        match self {
            ExecError::Spawn(msg) => msg.clone(),
            ExecError::Decode => String::from_str("failed to parse output"),
            ExecError::Unsupported => String::from_str("Not Supported yet"),
        }
    }
}

} // verus!
