//! The runner: a supervised process, the inbox that the exit monitor and the
//! result readers post into, and the wait that takes the first message.

use crate::json::json_encoding;
use crate::outcome::{outcome_of, Elapsed, Outcome, RunnerError, RunnerOutput, RunnerResult};
use crate::process::{
    encoded_view, LangRunnerProcess, PollAction, ProcessModel, StopAction, StopReport, Streams, WaitEvent,
    UNKNOWN_EXIT,
};
use vstd::prelude::*;

verus! {

/// How long, in milliseconds, the exit monitor sleeps between two polls.
pub const MONITOR_INTERVAL_MS: u64 = 500;

/// What the exit monitor does after one of its polls.
#[derive(Debug, Clone, Copy, PartialEq, Eq, Structural)]
pub enum MonitorStep {
    /// The worker is still running: sleep this many milliseconds, then poll
    /// again.
    Sleep(u64),
    /// The worker has exited with this code; the exit was posted to the inbox
    /// and the monitor is over.
    Posted(i32),
    /// The worker has exited with this code, but nobody receives from the
    /// inbox any more: the whole program has to terminate with this code.
    Fatal(i32),
    /// The monitor had ended before; nothing was done.
    Ended,
}

/// What became of a message that a result reader posted.
#[derive(Debug, Clone, Copy, PartialEq, Eq, Structural)]
pub enum Delivery {
    /// The message is in the inbox.
    Delivered,
    /// Nobody receives from the inbox any more: the whole program has to
    /// terminate with this code.
    Fatal(i32),
}

/// What a wait returns, with its texts as sequences of characters.
pub struct OutputModel {
    pub outcome: Outcome,
    pub duration: Elapsed,
    pub stdout: Seq<char>,
    pub stderr: Seq<char>,
}

impl View for RunnerOutput {
    type V = OutputModel;

    open spec fn view(&self) -> OutputModel {
        OutputModel {
            outcome: self.outcome,
            duration: self.duration,
            stdout: self.stdout@,
            stderr: self.stderr@,
        }
    }
}

/// The mathematical state of a runner.
pub struct RunnerModel {
    /// The supervised process.
    pub process: ProcessModel,
    /// The messages posted and not yet taken, oldest first.
    pub inbox: Seq<RunnerResult>,
    /// Whether the exit monitor is still at work.
    pub monitoring: bool,
    /// Whether the receiving end of the inbox is still held.
    pub receiving: bool,
}

impl RunnerModel {
    /// The state right after a launch: a fresh process, an empty inbox, the
    /// monitor at work.
    pub open spec fn fresh() -> RunnerModel {
        RunnerModel {
            process: ProcessModel::fresh(),
            inbox: Seq::empty(),
            monitoring: true,
            receiving: true,
        }
    }

    /// One round of the exit monitor: it polls the process; the first exit it
    /// sees ends the monitor for good, and is posted as an unexpected exit
    /// where the inbox is still received from, fatal where it is not.
    pub open spec fn monitor(self, event: WaitEvent) -> (RunnerModel, MonitorStep) {
        if !self.monitoring {
            (self, MonitorStep::Ended)
        } else {
            let (process, polled) = self.process.poll(event);
            match polled {
                Some(code) => if self.receiving {
                    (
                        RunnerModel {
                            process,
                            inbox: self.inbox.push(Err(RunnerError::UnexpectedExit(code))),
                            monitoring: false,
                            ..self
                        },
                        MonitorStep::Posted(code),
                    )
                } else {
                    (RunnerModel { process, monitoring: false, ..self }, MonitorStep::Fatal(code))
                },
                None => (RunnerModel { process, ..self }, MonitorStep::Sleep(MONITOR_INTERVAL_MS)),
            }
        }
    }

    /// A result reader posts the message it came back with: it joins the
    /// inbox behind the messages already there, or, where the inbox is no
    /// longer received from, is lost and the failure is fatal with the
    /// unknown exit code.
    pub open spec fn post(self, message: RunnerResult) -> (RunnerModel, Delivery) {
        if self.receiving {
            (RunnerModel { inbox: self.inbox.push(message), ..self }, Delivery::Delivered)
        } else {
            (self, Delivery::Fatal(UNKNOWN_EXIT))
        }
    }

    /// The receiving end of the inbox is given up: the messages not yet taken
    /// are dropped with it.
    pub open spec fn disconnect(self) -> RunnerModel {
        RunnerModel { inbox: Seq::empty(), receiving: false, ..self }
    }

    /// A wait: with an empty inbox nothing happens; otherwise the oldest
    /// message leaves the inbox and becomes the outcome, and both buffers of
    /// captured lines are drained into it.
    pub open spec fn wait(self, elapsed: Elapsed) -> (RunnerModel, Option<OutputModel>) {
        if self.inbox.len() == 0 {
            (self, None)
        } else {
            (
                RunnerModel {
                    process: self.process.drain_stdout().0.drain_stderr().0,
                    inbox: self.inbox.drop_first(),
                    ..self
                },
                Some(
                    OutputModel {
                        outcome: outcome_of(self.inbox.first()),
                        duration: elapsed,
                        stdout: self.process.drain_stdout().1,
                        stderr: self.process.drain_stderr().1,
                    },
                ),
            )
        }
    }
}

/// A supervised worker together with its inbox and its exit monitor.
#[derive(Debug)]
pub struct LangRunner {
    runner: LangRunnerProcess,
    inbox: Vec<RunnerResult>,
    monitoring: bool,
    receiving: bool,
}

impl View for LangRunner {
    type V = RunnerModel;

    closed spec fn view(&self) -> RunnerModel {
        RunnerModel {
            process: self.runner@,
            inbox: self.inbox@,
            monitoring: self.monitoring,
            receiving: self.receiving,
        }
    }
}

impl LangRunner {
    /// Takes over a worker that was just spawned: the inbox is empty and the
    /// exit monitor is at work. Fails as the launch of the process fails.
    pub fn start(spawned: Option<Streams>) -> (started: Result<LangRunner, RunnerError>)
        ensures
            match started {
                Ok(runner) => crate::process::launch_fault(spawned) is None && runner@
                    == RunnerModel::fresh(),
                Err(err) => crate::process::launch_fault(spawned) is Some && err
                    == RunnerError::Launch(crate::process::launch_fault(spawned).unwrap()),
            },
    {
        match LangRunnerProcess::start(spawned) {
            Ok(runner) => Ok(
                LangRunner { runner, inbox: Vec::new(), monitoring: true, receiving: true },
            ),
            Err(err) => Err(err),
        }
    }

    /// One round of the exit monitor, settled with the event of its poll.
    pub fn monitor(&mut self, event: WaitEvent) -> (step: MonitorStep)
        ensures
            (final(self)@, step) == old(self)@.monitor(event),
    {
        if !self.monitoring {
            return MonitorStep::Ended;
        }
        match self.runner.check_exited(event) {
            Some(code) => {
                self.monitoring = false;
                if self.receiving {
                    self.inbox.push(Err(RunnerError::UnexpectedExit(code)));
                    MonitorStep::Posted(code)
                } else {
                    MonitorStep::Fatal(code)
                }
            },
            None => MonitorStep::Sleep(MONITOR_INTERVAL_MS),
        }
    }

    /// The bytes to hand to the worker for one input value.
    pub fn write(&self, input: &serde_json::Value) -> (bytes: Result<Vec<u8>, RunnerError>)
        ensures
            match bytes {
                Ok(b) => self@.process.write(json_encoding(*input)) == Ok::<Seq<u8>, RunnerError>(
                    b@,
                ),
                Err(err) => self@.process.write(json_encoding(*input)) == Err::<
                    Seq<u8>,
                    RunnerError,
                >(err),
            },
    {
        self.runner.write(input)
    }

    /// Frames a serialised input for the worker.
    pub fn frame_input(&self, encoded: Result<Vec<u8>, serde_json::Error>) -> (bytes: Result<
        Vec<u8>,
        RunnerError,
    >)
        ensures
            match bytes {
                Ok(b) => self@.process.write(encoded_view(encoded)) == Ok::<Seq<u8>, RunnerError>(
                    b@,
                ),
                Err(err) => self@.process.write(encoded_view(encoded)) == Err::<
                    Seq<u8>,
                    RunnerError,
                >(err),
            },
    {
        self.runner.frame_input(encoded)
    }

    /// Posts the message that a result reader came back with.
    pub fn post_result(&mut self, message: RunnerResult) -> (delivery: Delivery)
        ensures
            (final(self)@, delivery) == old(self)@.post(message),
    {
        if self.receiving {
            self.inbox.push(message);
            Delivery::Delivered
        } else {
            Delivery::Fatal(UNKNOWN_EXIT)
        }
    }

    /// Gives up the receiving end of the inbox, dropping the messages not
    /// yet taken. From then on a message that cannot be delivered is fatal.
    pub fn disconnect(&mut self)
        ensures
            final(self)@ == old(self)@.disconnect(),
    {
        self.inbox.clear();
        self.receiving = false;
    }

    /// Records one step of the output collector.
    pub fn collect_stdout(&mut self, line: Option<String>)
        ensures
            final(self)@ == (RunnerModel {
                process: old(self)@.process.collect_stdout(
                    match line {
                        Some(text) => Some(text@),
                        None => None,
                    },
                ),
                ..old(self)@
            }),
    {
        self.runner.collect_stdout(line);
    }

    /// Records one step of the error collector.
    pub fn collect_stderr(&mut self, line: Option<String>)
        ensures
            final(self)@ == (RunnerModel {
                process: old(self)@.process.collect_stderr(
                    match line {
                        Some(text) => Some(text@),
                        None => None,
                    },
                ),
                ..old(self)@
            }),
    {
        self.runner.collect_stderr(line);
    }

    /// Takes the first message from the inbox and turns it into the output
    /// of the wait: the outcome, the elapsed time, and the captured output
    /// and error text, both drained. Returns `None`, changing nothing, while
    /// the inbox is empty.
    pub fn wait_for_response_or_exit(&mut self, elapsed: Elapsed) -> (output: Option<RunnerOutput>)
        ensures
            final(self)@ == old(self)@.wait(elapsed).0,
            match output {
                Some(out) => old(self)@.wait(elapsed).1 == Some(out@),
                None => old(self)@.wait(elapsed).1 is None,
            },
    {
        if self.inbox.len() == 0 {
            return None;
        }
        let received = self.inbox.remove(0);
        let outcome = Outcome::from_received(received);
        let stdout = self.runner.consume_stdout();
        let stderr = self.runner.consume_stderr();
        proof {
            assert(self.inbox@ =~= old(self).inbox@.drop_first());
        }
        Some(RunnerOutput { outcome, duration: elapsed, stdout, stderr })
    }

    /// What a poll has to do.
    pub fn poll_action(&self) -> (action: PollAction)
        ensures
            action == self@.process.poll_action(),
    {
        self.runner.poll_action()
    }

    /// Settles a poll of the exit status with the event of the wait.
    pub fn check_exited(&mut self, event: WaitEvent) -> (code: Option<i32>)
        ensures
            final(self)@ == (RunnerModel {
                process: old(self)@.process.poll(event).0,
                ..old(self)@
            }),
            code == old(self)@.process.poll(event).1,
    {
        self.runner.check_exited(event)
    }

    /// What a stop has to do.
    pub fn stop_action(&self) -> (action: StopAction)
        ensures
            action == self@.process.stop_action(),
    {
        self.runner.stop_action()
    }

    /// Settles a stop with the event of the wait.
    pub fn stop(&mut self, event: WaitEvent) -> (report: StopReport)
        ensures
            final(self)@ == (RunnerModel {
                process: old(self)@.process.stop(event).0,
                ..old(self)@
            }),
            report == old(self)@.process.stop(event).1,
    {
        self.runner.stop(event)
    }
}

} // verus!
