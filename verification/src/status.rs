//! The values an execution can end in.
use crate::output::{OutputView, PendingOutput};
/// The outcome of an execution that was cancelled before it completed.
pub use futures::stream::Aborted as RunnableTerminated;
use vstd::prelude::*;

verus! {

/// How a process ended: its exit code, or `None` where it ended without one
/// (on Unix, when a signal ended it).
#[derive(Clone, Copy, Debug, PartialEq, Eq)]
pub struct ExitStatus {
    pub code: Option<i32>,
}

impl ExitStatus {
    pub fn new(code: Option<i32>) -> (status: Self)
        ensures
            status.code == code,
    {
        ExitStatus { code }
    }

    /// Whether the exit code is zero.
    pub open spec fn spec_success(&self) -> bool {
        self.code == Some(0i32)
    }

    #[verifier::when_used_as_spec(spec_success)]
    pub fn success(&self) -> (ok: bool)
        ensures
            ok == self.spec_success(),
    {
        match self.code {
            Some(code) => code == 0,
            None => false,
        }
    }
}

/// `futures::stream::Aborted`, the marker that an aborted task resolves to.
/// It is a struct without fields and is declared as such: all its values are
/// one value.
#[verifier::external_type_specification]
pub struct ExAborted(futures::stream::Aborted);

/// A process could not be started at all.
#[derive(Debug, PartialEq, Eq)]
pub struct SpawnError {
    pub message: String,
}

/// Waiting for a started process failed.
#[derive(Debug, PartialEq, Eq)]
pub struct ExecutionError {
    pub message: String,
}

impl Clone for ExecutionError {
    fn clone(&self) -> (copy: Self)
        ensures
            copy == *self,
    {
        ExecutionError { message: self.message.clone() }
    }
}

/// What a completed process reports.
pub type Status = Result<ExitStatus, ExecutionError>;

/// Copies a status.
pub fn clone_status(status: &Status) -> (copy: Status)
    ensures
        copy == *status,
{
    match status {
        Ok(exit) => Ok(*exit),
        Err(error) => Err(error.clone()),
    }
}

/// The result of an execution that ran to completion.
#[derive(Debug)]
pub struct ExecutionResult {
    /// `Ok` with the exit status where the process ran and was waited for,
    /// `Err` otherwise.
    pub status: Status,
    /// The output capture of the execution, where it has one.
    pub output: Option<PendingOutput>,
}

impl ExecutionResult {
    /// The status, and the capture by its view.
    pub open spec fn view(&self) -> (Status, Option<OutputView>) {
        (
            self.status,
            match self.output {
                Some(output) => Some(output@),
                None => None,
            },
        )
    }

    /// Whether the execution counts as failed: its status is an error, or
    /// the process exited with anything but success.
    pub open spec fn spec_failed(&self) -> bool {
        match self.status {
            Ok(exit) => !exit.spec_success(),
            Err(_) => true,
        }
    }

    #[verifier::when_used_as_spec(spec_failed)]
    pub fn failed(&self) -> (failed: bool)
        ensures
            failed == self.spec_failed(),
    {
        match &self.status {
            Ok(exit) => !exit.success(),
            Err(_) => true,
        }
    }
}

} // verus!
