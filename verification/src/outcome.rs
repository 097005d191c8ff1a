//! What a wait on the worker can end in, and the errors of the supervisor.

use vstd::prelude::*;

verus! {

/// The stage of a launch that failed.
#[derive(Debug, Clone, Copy, PartialEq, Eq, Structural)]
pub enum LaunchFault {
    /// The executable could not be found or spawned.
    Spawn,
    /// The worker's input stream could not be obtained.
    Stdin,
    /// The worker's output stream could not be obtained.
    Stdout,
    /// The worker's error stream could not be obtained.
    Stderr,
}

/// The coarse kind of a [`RunnerError`].
#[derive(Debug, Clone, Copy, PartialEq, Eq, Structural)]
pub enum ErrorKind {
    Launch,
    Write,
    Protocol,
    UnexpectedExit,
}

/// An error of the supervisor.
#[derive(Debug)]
pub enum RunnerError {
    /// The worker could not be started.
    Launch(LaunchFault),
    /// Input was offered after the worker's input stream had been closed.
    WriteClosed,
    /// The input value could not be serialised.
    Encode(serde_json::Error),
    /// The result stream ended without offering a value.
    NoValue,
    /// The next value on the result stream failed to parse.
    Malformed(serde_json::Error),
    /// The worker terminated before a result was retrieved.
    UnexpectedExit(i32),
}

impl RunnerError {
    /// The kind of this error, for use in contracts.
    pub open spec fn spec_kind(self) -> ErrorKind {
        match self {
            RunnerError::Launch(_) => ErrorKind::Launch,
            RunnerError::WriteClosed => ErrorKind::Write,
            RunnerError::Encode(_) => ErrorKind::Write,
            RunnerError::NoValue => ErrorKind::Protocol,
            RunnerError::Malformed(_) => ErrorKind::Protocol,
            RunnerError::UnexpectedExit(_) => ErrorKind::UnexpectedExit,
        }
    }

    /// The kind of this error.
    pub fn kind(&self) -> (kind: ErrorKind)
        ensures
            kind == self.spec_kind(),
    {
        match self {
            RunnerError::Launch(_) => ErrorKind::Launch,
            RunnerError::WriteClosed => ErrorKind::Write,
            RunnerError::Encode(_) => ErrorKind::Write,
            RunnerError::NoValue => ErrorKind::Protocol,
            RunnerError::Malformed(_) => ErrorKind::Protocol,
            RunnerError::UnexpectedExit(_) => ErrorKind::UnexpectedExit,
        }
    }

    /// The exit code that an unexpected-exit error carries.
    pub fn exit_code(&self) -> (code: Option<i32>)
        ensures
            code == match *self {
                RunnerError::UnexpectedExit(c) => Some(c),
                _ => None,
            },
    {
        match self {
            RunnerError::UnexpectedExit(c) => Some(*c),
            _ => None,
        }
    }
}

/// A message on the supervisor's inbox: a result value, or why there is none.
pub type RunnerResult = Result<serde_json::Value, RunnerError>;

/// The two ways a wait can end.
#[derive(Debug)]
pub enum Outcome {
    /// A result value was retrieved.
    Completed(serde_json::Value),
    /// The worker terminated, or the result stream failed, before a result
    /// was retrieved.
    Exited(RunnerError),
}

/// A span of wall-clock time: whole seconds and the nanoseconds beyond them.
#[derive(Debug, Clone, Copy, PartialEq, Eq, Structural)]
pub struct Elapsed {
    pub secs: u64,
    pub nanos: u32,
}

/// What a wait returns: the outcome, how long the wait took, and the
/// diagnostic text captured from the worker up to then.
#[derive(Debug)]
pub struct RunnerOutput {
    pub outcome: Outcome,
    pub duration: Elapsed,
    pub stdout: String,
    pub stderr: String,
}

/// The outcome that a received message stands for.
pub open spec fn outcome_of(received: RunnerResult) -> Outcome {
    match received {
        Ok(value) => Outcome::Completed(value),
        Err(err) => Outcome::Exited(err),
    }
}

/// The message that one step of the result stream stands for: the value it
/// offered, `NoValue` where the stream had none left, `Malformed` where the
/// next value failed to parse.
pub open spec fn read_outcome_spec(
    next: Option<Result<serde_json::Value, serde_json::Error>>,
) -> RunnerResult {
    match next {
        Some(Ok(value)) => Ok(value),
        Some(Err(err)) => Err(RunnerError::Malformed(err)),
        None => Err(RunnerError::NoValue),
    }
}

impl Outcome {
    /// Turns a received message into the outcome of the wait.
    pub fn from_received(received: RunnerResult) -> (outcome: Outcome)
        ensures
            outcome == outcome_of(received),
    {
        match received {
            Ok(value) => Outcome::Completed(value),
            Err(err) => Outcome::Exited(err),
        }
    }
}

/// Classifies one step of the result stream.
pub fn read_outcome(next: Option<Result<serde_json::Value, serde_json::Error>>) -> (message:
    RunnerResult)
    ensures
        message == read_outcome_spec(next),
{
    match next {
        Some(Ok(value)) => Ok(value),
        Some(Err(err)) => Err(RunnerError::Malformed(err)),
        None => Err(RunnerError::NoValue),
    }
}

/// Retrieves the first JSON value from the bytes of the result stream. A
/// stream of nothing but whitespace, and no other, has no value to offer.
pub fn get_next_algoout_value(bytes: &[u8]) -> (message: RunnerResult)
    ensures
        message == read_outcome_spec(crate::json::first_json_value(bytes@)),
        message == Err::<serde_json::Value, RunnerError>(RunnerError::NoValue)
            <==> crate::json::only_whitespace(bytes@),
{
    read_outcome(crate::json::parse_first_value(bytes))
}

} // verus!
