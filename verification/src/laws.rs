//! Laws of the supervisor, proved from the models of the process and the
//! runner.

use crate::lines::captured_text;
use crate::outcome::{outcome_of, Elapsed, Outcome, RunnerError, RunnerResult};
use crate::process::{ProcessModel, StopAction, StopReport, WaitEvent};
use crate::runner::{Delivery, MonitorStep, OutputModel, RunnerModel};
use vstd::prelude::*;

verus! {

/// The results of polling a process once for each event, in order.
pub open spec fn poll_all(process: ProcessModel, events: Seq<WaitEvent>) -> Seq<Option<i32>>
    decreases events.len(),
{
    if events.len() == 0 {
        Seq::empty()
    } else {
        seq![process.poll(events.first()).1] + poll_all(
            process.poll(events.first()).0,
            events.drop_first(),
        )
    }
}

/// Polling yields one result per event; once the exit code is known, every
/// poll returns it.
pub proof fn poll_all_of_settled(process: ProcessModel, events: Seq<WaitEvent>)
    ensures
        poll_all(process, events).len() == events.len(),
        process.exit_code is Some ==> forall|i: int|
            0 <= i < events.len() ==> poll_all(process, events)[i] == process.exit_code,
    decreases events.len(),
{
    if events.len() > 0 {
        poll_all_of_settled(process.poll(events.first()).0, events.drop_first());
    }
}

/// A value that a result reader posts into an empty inbox is what the wait
/// returns: completed, with exactly that value, the given duration, and the
/// text of every line captured up to then.
pub proof fn posted_value_completes(
    runner: RunnerModel,
    value: serde_json::Value,
    elapsed: Elapsed,
)
    requires
        runner.inbox.len() == 0,
        runner.receiving,
    ensures
        runner.post(Ok(value)).0.wait(elapsed).1 == Some(
            OutputModel {
                outcome: Outcome::Completed(value),
                duration: elapsed,
                stdout: captured_text(runner.process.out_lines),
                stderr: captured_text(runner.process.err_lines),
            },
        ),
{
}

/// The message that a result reader posts into an empty inbox decides the wait, also
/// where the exit monitor sees the worker exit right after.
pub proof fn first_message_wins(
    runner: RunnerModel,
    message: RunnerResult,
    event: WaitEvent,
    elapsed: Elapsed,
)
    requires
        runner.inbox.len() == 0,
        runner.receiving,
    ensures
        runner.post(message).0.monitor(event).0.wait(elapsed).1 is Some,
        runner.post(message).0.monitor(event).0.wait(elapsed).1.unwrap().outcome
            == outcome_of(message),
{
}

/// Where the exit monitor sees the worker exit while the inbox is empty, the
/// wait has a message to take and returns an exit that carries that code,
/// also where a result reader posts afterwards.
pub proof fn exit_before_result_is_reported(
    runner: RunnerModel,
    event: WaitEvent,
    code: i32,
    later: RunnerResult,
    elapsed: Elapsed,
)
    requires
        runner.inbox.len() == 0,
        runner.monitoring,
        runner.receiving,
        runner.process.poll(event).1 == Some(code),
    ensures
        runner.monitor(event).0.wait(elapsed).1 is Some,
        runner.monitor(event).0.wait(elapsed).1.unwrap().outcome == Outcome::Exited(
            RunnerError::UnexpectedExit(code),
        ),
        runner.monitor(event).0.post(later).0.wait(elapsed).1.unwrap().outcome == Outcome::Exited(
            RunnerError::UnexpectedExit(code),
        ),
{
}

/// Once the receiving end of the inbox is given up, no wait has a message
/// to take, a posted message is lost, and the first exit that the monitor
/// sees is fatal with the exit code.
pub proof fn disconnected_runner_fails_hard(
    runner: RunnerModel,
    message: RunnerResult,
    event: WaitEvent,
    elapsed: Elapsed,
)
    ensures
        runner.disconnect().wait(elapsed) == (runner.disconnect(), None::<OutputModel>),
        runner.disconnect().post(message) == (
            runner.disconnect(),
            Delivery::Fatal(crate::process::UNKNOWN_EXIT),
        ),
        runner.monitoring ==> match runner.process.poll(event).1 {
            Some(code) => runner.disconnect().monitor(event).1 == MonitorStep::Fatal(code),
            None => runner.disconnect().monitor(event).1 == MonitorStep::Sleep(
                crate::runner::MONITOR_INTERVAL_MS,
            ),
        },
{
}

/// Consuming a buffer drains it: the first call returns the captured text,
/// a second call right after returns the empty text.
pub proof fn consume_drains(process: ProcessModel)
    ensures
        process.drain_stdout().1 == captured_text(process.out_lines),
        process.drain_stdout().0.drain_stdout().1 == Seq::<char>::empty(),
        process.drain_stderr().1 == captured_text(process.err_lines),
        process.drain_stderr().0.drain_stderr().1 == Seq::<char>::empty(),
{
}

/// A second stop returns the code of the first, calls for no wait and no
/// kill, and changes nothing.
pub proof fn stop_is_idempotent(process: ProcessModel, first: WaitEvent, second: WaitEvent)
    ensures
        process.stop(first).0.stop_action() == StopAction::ReturnCached(
            process.stop(first).1.code,
        ),
        process.stop(first).0.stop(second) == (
            process.stop(first).0,
            StopReport { code: process.stop(first).1.code, kill: false },
        ),
{
}

/// A known exit code is final: neither a poll nor a stop changes the state,
/// and both return that code.
pub proof fn exit_code_is_final(process: ProcessModel, event: WaitEvent)
    requires
        process.exit_code is Some,
    ensures
        process.poll(event) == (process, process.exit_code),
        process.stop(event) == (
            process,
            StopReport { code: process.exit_code.unwrap(), kill: false },
        ),
{
}

/// Over any run of polls, once one poll has returned an exit code, every
/// later poll returns the same code.
pub proof fn polls_agree(process: ProcessModel, events: Seq<WaitEvent>, i: int, j: int)
    requires
        0 <= i <= j < events.len(),
        poll_all(process, events)[i] is Some,
    ensures
        poll_all(process, events)[j] == poll_all(process, events)[i],
    decreases events.len(),
{
    let next = process.poll(events.first()).0;
    let rest = events.drop_first();
    poll_all_of_settled(next, rest);
    if i == 0 {
        if j > 0 {
            assert(poll_all(process, events)[j] == poll_all(next, rest)[j - 1]);
        }
    } else {
        polls_agree(next, rest, i - 1, j - 1);
        assert(poll_all(process, events)[i] == poll_all(next, rest)[i - 1]);
        assert(poll_all(process, events)[j] == poll_all(next, rest)[j - 1]);
    }
}

} // verus!
