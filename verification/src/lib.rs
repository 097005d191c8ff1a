//! Supervision logic for a long-lived worker process.
//!
//! The crate holds the decisions of a process supervisor as verified state
//! machines: the once-settable exit status, the captured diagnostic lines,
//! the framing of input and results as JSON, and the race between a result
//! reader and an exit monitor for a single inbox. The surrounding program
//! performs the system calls and hands their outcomes in as plain values.

pub mod json;
pub mod laws;
pub mod lines;
pub mod outcome;
pub mod process;
pub mod runner;

pub use outcome::{
    get_next_algoout_value, read_outcome, Elapsed, ErrorKind, LaunchFault, Outcome, RunnerError,
    RunnerOutput, RunnerResult,
};
pub use process::{
    LangRunnerProcess, PollAction, StopAction, StopReport, Streams, WaitEvent,
    POLL_WAIT_MS, STOP_GRACE_MS, UNKNOWN_EXIT,
};
pub use runner::{Delivery, LangRunner, MonitorStep, MONITOR_INTERVAL_MS};
