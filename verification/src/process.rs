//! The supervised worker process: its input stream, its once-settable exit
//! status and its two buffers of captured lines.

use crate::json::{encode_value, json_encoding};
use crate::lines::{captured_text, join_captured, line_views, line_views_push};
use crate::outcome::{LaunchFault, RunnerError};
use vstd::prelude::*;

verus! {

/// The exit code recorded where the worker ended abnormally, was killed, or
/// could not be waited for.
pub const UNKNOWN_EXIT: i32 = -99;

/// How long, in milliseconds, a poll of the exit status may wait on the worker.
pub const POLL_WAIT_MS: u64 = 10;

/// How long, in milliseconds, a stop waits for the worker before killing it.
pub const STOP_GRACE_MS: u64 = 3000;

/// Which of the worker's standard streams were obtained at launch.
#[derive(Debug, Clone, Copy, PartialEq, Eq, Structural)]
pub struct Streams {
    pub stdin: bool,
    pub stdout: bool,
    pub stderr: bool,
}

/// What a bounded wait on the worker came back with.
#[derive(Debug, Clone, Copy, PartialEq, Eq, Structural)]
pub enum WaitEvent {
    /// The wait itself failed.
    Failed,
    /// The worker has exited, with this code where it has one.
    Exited(Option<i32>),
    /// The worker was still running when the wait ran out.
    Running,
}

/// What a poll of the exit status has to do.
#[derive(Debug, Clone, Copy, PartialEq, Eq, Structural)]
pub enum PollAction {
    /// The exit code is known: return it without waiting.
    ReturnCached(i32),
    /// Wait on the worker for at most this many milliseconds and report the
    /// event.
    Wait(u64),
}

/// What a stop has to do.
#[derive(Debug, Clone, Copy, PartialEq, Eq, Structural)]
pub enum StopAction {
    /// The exit code is known: return it, touching nothing.
    ReturnCached(i32),
    /// Close the worker's input, wait on the worker for at most this many
    /// milliseconds and report the event.
    CloseInputAndWait(u64),
}

/// The result of a stop: the exit code, and whether the worker is still
/// running and has to be killed.
#[derive(Debug, Clone, Copy, PartialEq, Eq, Structural)]
pub struct StopReport {
    pub code: i32,
    pub kill: bool,
}

/// The exit code that a wait event settles, if it settles one.
pub open spec fn exit_code_of(event: WaitEvent) -> Option<i32> {
    match event {
        WaitEvent::Failed => Some(UNKNOWN_EXIT),
        WaitEvent::Exited(Some(code)) => Some(code),
        WaitEvent::Exited(None) => Some(UNKNOWN_EXIT),
        WaitEvent::Running => None,
    }
}

/// The launch fault that a spawn report stands for, checked in the order
/// spawn, input, output, error.
pub open spec fn launch_fault(spawned: Option<Streams>) -> Option<LaunchFault> {
    match spawned {
        None => Some(LaunchFault::Spawn),
        Some(streams) => if !streams.stdin {
            Some(LaunchFault::Stdin)
        } else if !streams.stdout {
            Some(LaunchFault::Stdout)
        } else if !streams.stderr {
            Some(LaunchFault::Stderr)
        } else {
            None
        },
    }
}

/// The bytes handed to the worker for one input: its JSON text and a newline.
pub open spec fn framed(encoded: Seq<u8>) -> Seq<u8> {
    encoded.push(10u8)
}

/// The mathematical state of a supervised process.
pub struct ProcessModel {
    /// Whether the worker's input stream is still open.
    pub input_open: bool,
    /// The exit code, once it is known.
    pub exit_code: Option<i32>,
    /// The lines captured from the worker's output and not yet consumed.
    pub out_lines: Seq<Seq<char>>,
    /// The lines captured from the worker's error stream and not yet consumed.
    pub err_lines: Seq<Seq<char>>,
}

impl ProcessModel {
    /// The state right after a launch.
    pub open spec fn fresh() -> ProcessModel {
        ProcessModel {
            input_open: true,
            exit_code: None,
            out_lines: Seq::empty(),
            err_lines: Seq::empty(),
        }
    }

    /// What an input becomes: the framed bytes, or the reason for none.
    pub open spec fn write(self, encoded: Result<Seq<u8>, serde_json::Error>) -> Result<
        Seq<u8>,
        RunnerError,
    > {
        if !self.input_open {
            Err(RunnerError::WriteClosed)
        } else {
            match encoded {
                Ok(bytes) => Ok(framed(bytes)),
                Err(err) => Err(RunnerError::Encode(err)),
            }
        }
    }

    /// What a poll has to do in this state.
    pub open spec fn poll_action(self) -> PollAction {
        match self.exit_code {
            Some(code) => PollAction::ReturnCached(code),
            None => PollAction::Wait(POLL_WAIT_MS),
        }
    }

    /// A poll: a known exit code stays, otherwise the event settles it.
    pub open spec fn poll(self, event: WaitEvent) -> (ProcessModel, Option<i32>) {
        match self.exit_code {
            Some(code) => (self, Some(code)),
            None => (ProcessModel { exit_code: exit_code_of(event), ..self }, exit_code_of(event)),
        }
    }

    /// What a stop has to do in this state.
    pub open spec fn stop_action(self) -> StopAction {
        match self.exit_code {
            Some(code) => StopAction::ReturnCached(code),
            None => StopAction::CloseInputAndWait(STOP_GRACE_MS),
        }
    }

    /// A stop: a known exit code stays and nothing is touched; otherwise the
    /// input is closed, the event settles the code, and a worker that is
    /// still running is to be killed.
    pub open spec fn stop(self, event: WaitEvent) -> (ProcessModel, StopReport) {
        match self.exit_code {
            Some(code) => (self, StopReport { code, kill: false }),
            None => {
                let code = match exit_code_of(event) {
                    Some(code) => code,
                    None => UNKNOWN_EXIT,
                };
                (
                    ProcessModel { input_open: false, exit_code: Some(code), ..self },
                    StopReport { code, kill: event == WaitEvent::Running },
                )
            },
        }
    }

    /// One step of the output collector: a decoded line is appended, a line
    /// that failed to decode is dropped.
    pub open spec fn collect_stdout(self, line: Option<Seq<char>>) -> ProcessModel {
        match line {
            Some(text) => ProcessModel { out_lines: self.out_lines.push(text), ..self },
            None => self,
        }
    }

    /// One step of the error collector.
    pub open spec fn collect_stderr(self, line: Option<Seq<char>>) -> ProcessModel {
        match line {
            Some(text) => ProcessModel { err_lines: self.err_lines.push(text), ..self },
            None => self,
        }
    }

    /// Consuming the captured output: the text delivered and the state left.
    pub open spec fn drain_stdout(self) -> (ProcessModel, Seq<char>) {
        (ProcessModel { out_lines: Seq::empty(), ..self }, captured_text(self.out_lines))
    }

    /// Consuming the captured error text.
    pub open spec fn drain_stderr(self) -> (ProcessModel, Seq<char>) {
        (ProcessModel { err_lines: Seq::empty(), ..self }, captured_text(self.err_lines))
    }
}

/// The state of a supervised worker process.
#[derive(Debug)]
pub struct LangRunnerProcess {
    stdin_open: bool,
    exit_status: Option<i32>,
    stdout: Vec<String>,
    stderr: Vec<String>,
}

impl View for LangRunnerProcess {
    type V = ProcessModel;

    closed spec fn view(&self) -> ProcessModel {
        ProcessModel {
            input_open: self.stdin_open,
            exit_code: self.exit_status,
            out_lines: line_views(self.stdout@),
            err_lines: line_views(self.stderr@),
        }
    }
}

/// The outcome of a serialisation with its bytes as a sequence.
pub open spec fn encoded_view(encoded: Result<Vec<u8>, serde_json::Error>) -> Result<
    Seq<u8>,
    serde_json::Error,
> {
    match encoded {
        Ok(bytes) => Ok(bytes@),
        Err(err) => Err(err),
    }
}

impl LangRunnerProcess {
    /// Takes over a worker that was just spawned. Fails with a launch error
    /// where the spawn failed or one of the three streams is missing.
    pub fn start(spawned: Option<Streams>) -> (started: Result<LangRunnerProcess, RunnerError>)
        ensures
            match started {
                Ok(process) => launch_fault(spawned) is None && process@ == ProcessModel::fresh(),
                Err(err) => launch_fault(spawned) is Some && err == RunnerError::Launch(
                    launch_fault(spawned).unwrap(),
                ),
            },
    {
        match spawned {
            None => Err(RunnerError::Launch(LaunchFault::Spawn)),
            Some(streams) => {
                if !streams.stdin {
                    Err(RunnerError::Launch(LaunchFault::Stdin))
                } else if !streams.stdout {
                    Err(RunnerError::Launch(LaunchFault::Stdout))
                } else if !streams.stderr {
                    Err(RunnerError::Launch(LaunchFault::Stderr))
                } else {
                    let process = LangRunnerProcess {
                        stdin_open: true,
                        exit_status: None,
                        stdout: Vec::new(),
                        stderr: Vec::new(),
                    };
                    proof {
                        assert(process@.out_lines =~= Seq::empty());
                        assert(process@.err_lines =~= Seq::empty());
                    }
                    Ok(process)
                }
            },
        }
    }

    /// Whether the worker's input stream is still open.
    pub fn input_open(&self) -> (open: bool)
        ensures
            open == self@.input_open,
    {
        self.stdin_open
    }

    /// Frames a serialised input for the worker: the bytes followed by one
    /// newline. Fails where the input stream was closed, or else where the
    /// serialisation had failed.
    pub fn frame_input(&self, encoded: Result<Vec<u8>, serde_json::Error>) -> (bytes: Result<
        Vec<u8>,
        RunnerError,
    >)
        ensures
            match bytes {
                Ok(b) => self@.write(encoded_view(encoded)) == Ok::<Seq<u8>, RunnerError>(b@),
                Err(err) => self@.write(encoded_view(encoded)) == Err::<Seq<u8>, RunnerError>(err),
            },
    {
        if !self.stdin_open {
            return Err(RunnerError::WriteClosed);
        }
        match encoded {
            Ok(text) => {
                let mut bytes = text;
                bytes.push(10u8);
                Ok(bytes)
            },
            Err(err) => Err(RunnerError::Encode(err)),
        }
    }

    /// The bytes to hand to the worker for one input value: its JSON text
    /// followed by one newline. Fails where the input stream was closed, or
    /// else where the value cannot be serialised.
    pub fn write(&self, input: &serde_json::Value) -> (bytes: Result<Vec<u8>, RunnerError>)
        ensures
            match bytes {
                Ok(b) => self@.write(json_encoding(*input)) == Ok::<Seq<u8>, RunnerError>(b@),
                Err(err) => self@.write(json_encoding(*input)) == Err::<Seq<u8>, RunnerError>(err),
            },
    {
        if !self.stdin_open {
            Err(RunnerError::WriteClosed)
        } else {
            self.frame_input(encode_value(input))
        }
    }

    /// Records one step of the output collector.
    pub fn collect_stdout(&mut self, line: Option<String>)
        ensures
            final(self)@ == old(self)@.collect_stdout(
                match line {
                    Some(text) => Some(text@),
                    None => None,
                },
            ),
    {
        if let Some(text) = line {
            proof {
                line_views_push(self.stdout@, text);
            }
            self.stdout.push(text);
        }
    }

    /// Records one step of the error collector.
    pub fn collect_stderr(&mut self, line: Option<String>)
        ensures
            final(self)@ == old(self)@.collect_stderr(
                match line {
                    Some(text) => Some(text@),
                    None => None,
                },
            ),
    {
        if let Some(text) = line {
            proof {
                line_views_push(self.stderr@, text);
            }
            self.stderr.push(text);
        }
    }

    /// Returns the captured output, joined with newlines and without a
    /// trailing newline, and clears the buffer.
    pub fn consume_stdout(&mut self) -> (text: String)
        ensures
            (final(self)@, text@) == old(self)@.drain_stdout(),
    {
        let text = join_captured(&self.stdout);
        self.stdout.clear();
        proof {
            assert(line_views(self.stdout@) =~= Seq::empty());
        }
        text
    }

    /// Returns the captured error text, joined with newlines and without a
    /// trailing newline, and clears the buffer.
    pub fn consume_stderr(&mut self) -> (text: String)
        ensures
            (final(self)@, text@) == old(self)@.drain_stderr(),
    {
        let text = join_captured(&self.stderr);
        self.stderr.clear();
        proof {
            assert(line_views(self.stderr@) =~= Seq::empty());
        }
        text
    }

    /// The exit code, where it is already known.
    pub fn exit_status(&self) -> (code: Option<i32>)
        ensures
            code == self@.exit_code,
    {
        self.exit_status
    }

    /// What a poll has to do: nothing where the exit code is known, a short
    /// wait on the worker otherwise.
    pub fn poll_action(&self) -> (action: PollAction)
        ensures
            action == self@.poll_action(),
    {
        match self.exit_status {
            Some(code) => PollAction::ReturnCached(code),
            None => PollAction::Wait(POLL_WAIT_MS),
        }
    }

    /// Settles a poll with the event of the wait. A known exit code is
    /// returned whatever the event; otherwise an exit or a failed wait is
    /// recorded for good, and a running worker leaves the status open.
    pub fn check_exited(&mut self, event: WaitEvent) -> (code: Option<i32>)
        ensures
            (final(self)@, code) == old(self)@.poll(event),
    {
        if let Some(code) = self.exit_status {
            return Some(code);
        }
        let settled = match event {
            WaitEvent::Failed => Some(UNKNOWN_EXIT),
            WaitEvent::Exited(Some(code)) => Some(code),
            WaitEvent::Exited(None) => Some(UNKNOWN_EXIT),
            WaitEvent::Running => None,
        };
        self.exit_status = settled;
        settled
    }

    /// What a stop has to do: nothing where the exit code is known, otherwise
    /// close the input and wait for the grace period.
    pub fn stop_action(&self) -> (action: StopAction)
        ensures
            action == self@.stop_action(),
    {
        match self.exit_status {
            Some(code) => StopAction::ReturnCached(code),
            None => StopAction::CloseInputAndWait(STOP_GRACE_MS),
        }
    }

    /// Settles a stop with the event of the wait. A known exit code is
    /// returned whatever the event, with nothing to kill. Otherwise the input
    /// counts as closed, the code of an exited worker is recorded, and a
    /// failed wait or a worker still running records the unknown code, the
    /// latter with the order to kill it.
    pub fn stop(&mut self, event: WaitEvent) -> (report: StopReport)
        ensures
            (final(self)@, report) == old(self)@.stop(event),
    {
        if let Some(code) = self.exit_status {
            return StopReport { code, kill: false };
        }
        self.stdin_open = false;
        let report = match event {
            WaitEvent::Failed => StopReport { code: UNKNOWN_EXIT, kill: false },
            WaitEvent::Exited(Some(code)) => StopReport { code, kill: false },
            WaitEvent::Exited(None) => StopReport { code: UNKNOWN_EXIT, kill: false },
            WaitEvent::Running => StopReport { code: UNKNOWN_EXIT, kill: true },
        };
        self.exit_status = Some(report.code);
        report
    }
}

} // verus!
