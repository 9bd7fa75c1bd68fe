//! What becomes of a command once its process has exited.
//!
//! The caller runs `<shell> -c <cmd>` and hands over the exit status and the
//! captured output; these functions decide what is returned or relayed.

use vstd::prelude::*;
use vstd::string::StringExecFns;
use vstd::utf8::*;

use crate::text::utf8_string;

verus! {

/// What went wrong in running a command.
#[derive(Debug)]
pub enum SubprocessErrorKind {
    /// The shell could not be launched, or its output could not be collected
    /// or relayed; holds the system's description of the cause.
    Spawn { cause: String },
    /// The command exited unsuccessfully; holds what it wrote to standard error.
    Command { stderr: String },
    /// The command's output was not valid UTF-8.
    Undecodable,
}

/// A failure to run a command, with the shell that ran it.
#[derive(Debug)]
pub struct SubprocessError {
    pub shell: String,
    pub cmd: String,
    pub kind: SubprocessErrorKind,
}

/// The kind of error for a command that failed with `stderr` on standard error.
pub open spec fn failure_kind(stderr: Seq<u8>, k: SubprocessErrorKind) -> bool {
    if valid_utf8(stderr) {
        k matches SubprocessErrorKind::Command { stderr: s } && s@ == decode_utf8(stderr)
    } else {
        k is Undecodable
    }
}

/// The error names this shell and this command.
pub open spec fn names(e: SubprocessError, shell: Seq<char>, cmd: Seq<char>) -> bool {
    e.shell@ == shell && e.cmd@ == cmd
}

impl SubprocessError {
    /// The shell could not be launched, or output could not be collected or relayed.
    pub fn spawn_failure(shell: &str, cmd: &str, cause: String) -> (r: SubprocessError)
        ensures
            names(r, shell@, cmd@),
            r.kind == (SubprocessErrorKind::Spawn { cause }),
    {
        SubprocessError {
            shell: String::from_str(shell),
            cmd: String::from_str(cmd),
            kind: SubprocessErrorKind::Spawn { cause },
        }
    }

    /// The command exited unsuccessfully after writing `stderr`.
    pub fn command_failure(shell: &str, cmd: &str, stderr: String) -> (r: SubprocessError)
        ensures
            names(r, shell@, cmd@),
            r.kind == (SubprocessErrorKind::Command { stderr }),
    {
        SubprocessError {
            shell: String::from_str(shell),
            cmd: String::from_str(cmd),
            kind: SubprocessErrorKind::Command { stderr },
        }
    }

    /// The command's output was not valid UTF-8.
    pub fn undecodable(shell: &str, cmd: &str) -> (r: SubprocessError)
        ensures
            names(r, shell@, cmd@),
            r.kind is Undecodable,
    {
        SubprocessError {
            shell: String::from_str(shell),
            cmd: String::from_str(cmd),
            kind: SubprocessErrorKind::Undecodable,
        }
    }
}

/// The error for a command that exited unsuccessfully with `stderr` on
/// standard error: its text when that is UTF-8, else no text.
pub fn failure_error(shell: &str, cmd: &str, stderr: Vec<u8>) -> (r: SubprocessError)
    ensures
        names(r, shell@, cmd@),
        failure_kind(stderr@, r.kind),
{
    match utf8_string(stderr) {
        Some(text) => SubprocessError::command_failure(shell, cmd, text),
        None => SubprocessError::undecodable(shell, cmd),
    }
}

/// The result of a command run to completion: its standard output as text when
/// it succeeded, else the error that its exit calls for.
pub fn run_outcome(shell: &str, cmd: &str, success: bool, stdout: Vec<u8>, stderr: Vec<u8>) -> (r:
    Result<String, SubprocessError>)
    ensures
        r.is_ok() == (success && valid_utf8(stdout@)),
        r matches Ok(s) ==> s@ == decode_utf8(stdout@),
        r matches Err(e) ==> names(e, shell@, cmd@),
        !success ==> (r matches Err(e) && failure_kind(stderr@, e.kind)),
        success && !valid_utf8(stdout@) ==> (r matches Err(e) && e.kind is Undecodable),
{
    if !success {
        return Err(failure_error(shell, cmd, stderr));
    }
    match utf8_string(stdout) {
        Some(text) => Ok(text),
        None => Err(SubprocessError::undecodable(shell, cmd)),
    }
}

/// What to do once a spawned command has exited.
pub enum ExitAction {
    /// Write these bytes to the host's standard output, flush it, and succeed.
    Relay(Vec<u8>),
    /// Report this error.
    Fail(SubprocessError),
}

/// On success, relay the whole standard output unchanged; on failure, report
/// the error that standard error calls for.
pub fn exit_action(shell: &str, cmd: &str, success: bool, stdout: Vec<u8>, stderr: Vec<u8>) -> (r:
    ExitAction)
    ensures
        success ==> (r matches ExitAction::Relay(out) && out@ == stdout@),
        !success ==> (r matches ExitAction::Fail(e) && names(e, shell@, cmd@) && failure_kind(
            stderr@,
            e.kind,
        )),
{
    if success {
        ExitAction::Relay(stdout)
    } else {
        ExitAction::Fail(failure_error(shell, cmd, stderr))
    }
}

} // verus!
