//! Remote operation control: a closed whitelist of host commands, an executor
//! that turns a finished process into a result record, a dispatch guard that
//! lets one operation run at a time, and an append-only log of results.

mod clock;
pub mod command;
pub mod executor;
pub mod operation;
pub mod session;

pub use command::AllowedCommand;
pub use executor::{Execution, record_cmd, run_allowed_op, run_cmd};
pub use operation::{AllowedOperation, ExecError, ProcessOutput, RemoteOp};
pub use session::{OperationLog, Session};
