//! Bootstrap and lifecycle orchestration for a multi-service backend process.
//!
//! The crate resolves which service role(s) a process should run, decides how
//! a database connection is established under bounded retry and timeout rules,
//! plans idempotent schema migrations, and coordinates the graceful shutdown
//! of the supervised tasks.  All decision logic lives here, verified; the
//! surrounding process (argument parsing, the actual network and database
//! calls, the async runtime) drives these decisions from outside.

use vstd::prelude::*;

pub mod cluster;
pub mod config;
pub mod dispatch;
pub mod migration;
pub mod retry;
pub mod shutdown;

verus! {

/// Errors that end the bootstrap: every variant is fatal to the process.
#[derive(PartialEq, Eq, Structural, Clone, Copy, Debug)]
pub enum BootError {
    /// Database connection parameters could not be resolved.
    Config,
    /// The database rejected the credentials; never retried.
    ConnectAuth,
    /// A transient connection failure surfaced with retries disabled.
    ConnectFailed,
    /// The retry deadline elapsed before a connection was established.
    Timeout,
    /// A schema migration failed to apply; the batch stops there.
    Migration,
    /// A service unit failed to start or crashed.
    ServiceStart,
}

/// Process exit code for the outcome of a bootstrap path: 0 on clean
/// completion, 1 on any fatal error.
pub fn exit_code(outcome: &Result<(), BootError>) -> (code: i32)
    ensures
        code == 0 <==> outcome is Ok,
        code == 0 || code == 1,
{
    match outcome {
        Ok(()) => 0,
        Err(_) => 1,
    }
}

/// How a connection loop's final result propagates: a connection is the
/// only success; a credential failure, a surfaced transient failure and
/// an elapsed deadline are the three distinct fatal classes.
pub fn connect_outcome(res: &retry::ConnectResult) -> (r: Result<(), BootError>)
    ensures
        r is Ok <==> res is Connected,
        res is AuthFailed ==> r == Err::<(), BootError>(BootError::ConnectAuth),
        res is ConnectFailed ==> r == Err::<(), BootError>(BootError::ConnectFailed),
        res is TimedOut ==> r == Err::<(), BootError>(BootError::Timeout),
{
    match res {
        retry::ConnectResult::Connected => Ok(()),
        retry::ConnectResult::AuthFailed(_) => Err(BootError::ConnectAuth),
        retry::ConnectResult::ConnectFailed(_) => Err(BootError::ConnectFailed),
        retry::ConnectResult::TimedOut => Err(BootError::Timeout),
    }
}

} // verus!
