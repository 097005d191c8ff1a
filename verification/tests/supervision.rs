use langrunner::{
    get_next_algoout_value, read_outcome, Delivery, Elapsed, ErrorKind, LangRunner,
    LangRunnerProcess, LaunchFault, MonitorStep, Outcome, PollAction, RunnerError, StopAction,
    StopReport, Streams, WaitEvent, MONITOR_INTERVAL_MS, POLL_WAIT_MS, STOP_GRACE_MS,
    UNKNOWN_EXIT,
};
use serde_json::Value;

fn all_streams() -> Option<Streams> {
    Some(Streams { stdin: true, stdout: true, stderr: true })
}

fn process() -> LangRunnerProcess {
    LangRunnerProcess::start(all_streams()).expect("a complete spawn report starts")
}

fn runner() -> LangRunner {
    LangRunner::start(all_streams()).expect("a complete spawn report starts")
}

fn value(text: &str) -> Value {
    serde_json::from_str(text).expect("valid JSON")
}

fn short() -> Elapsed {
    Elapsed { secs: 1, nanos: 500 }
}

#[test]
fn constants_have_their_values() {
    assert_eq!(UNKNOWN_EXIT, -99);
    assert_eq!(POLL_WAIT_MS, 10);
    assert_eq!(STOP_GRACE_MS, 3000);
    assert_eq!(MONITOR_INTERVAL_MS, 500);
}

#[test]
fn start_reports_each_launch_fault() {
    assert!(matches!(
        LangRunnerProcess::start(None),
        Err(RunnerError::Launch(LaunchFault::Spawn))
    ));
    assert!(matches!(
        LangRunnerProcess::start(Some(Streams { stdin: false, stdout: false, stderr: false })),
        Err(RunnerError::Launch(LaunchFault::Stdin))
    ));
    assert!(matches!(
        LangRunnerProcess::start(Some(Streams { stdin: true, stdout: false, stderr: false })),
        Err(RunnerError::Launch(LaunchFault::Stdout))
    ));
    assert!(matches!(
        LangRunnerProcess::start(Some(Streams { stdin: true, stdout: true, stderr: false })),
        Err(RunnerError::Launch(LaunchFault::Stderr))
    ));
    assert!(matches!(LangRunner::start(None), Err(RunnerError::Launch(LaunchFault::Spawn))));
}

#[test]
fn start_gives_a_fresh_process() {
    let mut p = process();
    assert!(p.input_open());
    assert_eq!(p.exit_status(), None);
    assert_eq!(p.consume_stdout(), "");
    assert_eq!(p.consume_stderr(), "");
    assert_eq!(p.poll_action(), PollAction::Wait(10));
    assert_eq!(p.stop_action(), StopAction::CloseInputAndWait(3000));
}

#[test]
fn write_frames_the_json_text_with_a_newline() {
    let p = process();
    let bytes = p.write(&value("{\"a\":1}")).expect("input is open");
    assert_eq!(bytes, b"{\"a\":1}\n".to_vec());
    let bytes = p.write(&value(" [1, 2,\n 3] ")).expect("input is open");
    assert_eq!(bytes, b"[1,2,3]\n".to_vec());
}

#[test]
fn frame_input_appends_one_newline() {
    let mut p = process();
    assert_eq!(p.frame_input(Ok(Vec::new())).expect("input is open"), vec![10u8]);
    assert_eq!(p.frame_input(Ok(vec![b'1'])).expect("input is open"), vec![b'1', 10u8]);
    let failed = serde_json::from_str::<Value>("{").expect_err("malformed");
    assert!(matches!(p.frame_input(Err(failed)), Err(RunnerError::Encode(_))));
    p.stop(WaitEvent::Exited(Some(0)));
    assert!(matches!(p.frame_input(Ok(vec![b'1'])), Err(RunnerError::WriteClosed)));
    let failed = serde_json::from_str::<Value>("{").expect_err("malformed");
    assert!(matches!(p.frame_input(Err(failed)), Err(RunnerError::WriteClosed)));
    let r = runner();
    assert_eq!(r.frame_input(Ok(b"{}".to_vec())).expect("input is open"), b"{}\n".to_vec());
}

#[test]
fn write_after_stop_fails() {
    let mut p = process();
    let report = p.stop(WaitEvent::Exited(Some(0)));
    assert_eq!(report, StopReport { code: 0, kill: false });
    assert!(!p.input_open());
    let err = p.write(&value("1")).expect_err("input is closed");
    assert!(matches!(err, RunnerError::WriteClosed));
    assert_eq!(err.kind(), ErrorKind::Write);
}

#[test]
fn write_stays_possible_after_a_detected_exit() {
    let mut p = process();
    assert_eq!(p.check_exited(WaitEvent::Exited(Some(0))), Some(0));
    assert!(p.input_open());
    assert!(p.write(&value("null")).is_ok());
}

#[test]
fn consume_joins_lines_and_drains() {
    let mut p = process();
    p.collect_stdout(Some("first".to_string()));
    p.collect_stdout(Some("second".to_string()));
    p.collect_stderr(Some("oops".to_string()));
    assert_eq!(p.consume_stdout(), "first\nsecond");
    assert_eq!(p.consume_stdout(), "");
    assert_eq!(p.consume_stderr(), "oops");
    assert_eq!(p.consume_stderr(), "");
}

#[test]
fn consume_keeps_arrival_order_and_delivers_once() {
    let mut p = process();
    p.collect_stdout(Some("1".to_string()));
    p.collect_stdout(Some("2".to_string()));
    assert_eq!(p.consume_stdout(), "1\n2");
    p.collect_stdout(Some("3".to_string()));
    assert_eq!(p.consume_stdout(), "3");
}

#[test]
fn consume_trims_one_trailing_newline() {
    let mut p = process();
    p.collect_stdout(Some("a".to_string()));
    p.collect_stdout(Some(String::new()));
    assert_eq!(p.consume_stdout(), "a");

    p.collect_stdout(Some(String::new()));
    assert_eq!(p.consume_stdout(), "");

    p.collect_stdout(Some(String::new()));
    p.collect_stdout(Some(String::new()));
    assert_eq!(p.consume_stdout(), "");

    p.collect_stdout(Some("a".to_string()));
    p.collect_stdout(Some(String::new()));
    p.collect_stdout(Some(String::new()));
    assert_eq!(p.consume_stdout(), "a\n");

    p.collect_stderr(Some("tail\n".to_string()));
    assert_eq!(p.consume_stderr(), "tail");
}

#[test]
fn consume_handles_text_beyond_ascii() {
    let mut p = process();
    p.collect_stdout(Some("gr\u{fc}\u{df}e".to_string()));
    p.collect_stdout(Some("\u{4e16}\u{754c}".to_string()));
    p.collect_stdout(Some(String::new()));
    assert_eq!(p.consume_stdout(), "gr\u{fc}\u{df}e\n\u{4e16}\u{754c}");
}

#[test]
fn a_line_that_failed_to_decode_is_dropped() {
    let mut p = process();
    p.collect_stdout(Some("before".to_string()));
    p.collect_stdout(None);
    p.collect_stdout(Some("after".to_string()));
    p.collect_stderr(None);
    assert_eq!(p.consume_stdout(), "before\nafter");
    assert_eq!(p.consume_stderr(), "");
}

#[test]
fn poll_of_a_running_worker_leaves_the_status_open() {
    let mut p = process();
    assert_eq!(p.check_exited(WaitEvent::Running), None);
    assert_eq!(p.exit_status(), None);
    assert_eq!(p.poll_action(), PollAction::Wait(10));
}

#[test]
fn poll_records_the_exit_code() {
    let mut p = process();
    assert_eq!(p.check_exited(WaitEvent::Exited(Some(7))), Some(7));
    assert_eq!(p.exit_status(), Some(7));
    assert_eq!(p.poll_action(), PollAction::ReturnCached(7));
    assert_eq!(p.stop_action(), StopAction::ReturnCached(7));
}

#[test]
fn poll_records_the_unknown_code() {
    let mut p = process();
    assert_eq!(p.check_exited(WaitEvent::Exited(None)), Some(-99));
    let mut q = process();
    assert_eq!(q.check_exited(WaitEvent::Failed), Some(-99));
    assert_eq!(q.check_exited(WaitEvent::Exited(Some(0))), Some(-99));
}

#[test]
fn polls_never_disagree_once_settled() {
    let mut p = process();
    let events = [
        WaitEvent::Running,
        WaitEvent::Exited(Some(3)),
        WaitEvent::Exited(Some(4)),
        WaitEvent::Failed,
        WaitEvent::Running,
        WaitEvent::Exited(None),
    ];
    let seen: Vec<Option<i32>> = events.iter().map(|e| p.check_exited(*e)).collect();
    assert_eq!(seen, vec![None, Some(3), Some(3), Some(3), Some(3), Some(3)]);
}

#[test]
fn stop_twice_returns_the_same_code() {
    let mut p = process();
    let first = p.stop(WaitEvent::Exited(Some(5)));
    assert_eq!(first, StopReport { code: 5, kill: false });
    assert_eq!(p.stop_action(), StopAction::ReturnCached(5));
    let second = p.stop(WaitEvent::Running);
    assert_eq!(second, StopReport { code: 5, kill: false });
    assert_eq!(p.exit_status(), Some(5));
}

#[test]
fn stop_kills_a_worker_that_outlives_the_grace_period() {
    let mut p = process();
    assert_eq!(p.stop_action(), StopAction::CloseInputAndWait(3000));
    let report = p.stop(WaitEvent::Running);
    assert_eq!(report, StopReport { code: -99, kill: true });
    assert_eq!(p.exit_status(), Some(-99));
    assert!(!p.input_open());
    assert_eq!(p.stop(WaitEvent::Running), StopReport { code: -99, kill: false });
}

#[test]
fn stop_records_the_unknown_code_without_a_kill() {
    let mut p = process();
    assert_eq!(p.stop(WaitEvent::Failed), StopReport { code: -99, kill: false });
    let mut q = process();
    assert_eq!(q.stop(WaitEvent::Exited(None)), StopReport { code: -99, kill: false });
}

#[test]
fn stop_after_a_detected_exit_touches_nothing() {
    let mut p = process();
    assert_eq!(p.check_exited(WaitEvent::Exited(Some(2))), Some(2));
    assert_eq!(p.stop(WaitEvent::Running), StopReport { code: 2, kill: false });
    assert!(p.input_open());
}

#[test]
fn the_first_value_of_the_stream_is_read() {
    let got = get_next_algoout_value(b"{\"result\":2}").expect("a value");
    assert_eq!(got, value("{\"result\":2}"));
    let got = get_next_algoout_value(b"  {\"a\":1}{\"b\":2}").expect("a value");
    assert_eq!(got, value("{\"a\":1}"));
    let got = get_next_algoout_value(b"17 true").expect("a value");
    assert_eq!(got, value("17"));
}

#[test]
fn a_stream_without_a_value_is_a_protocol_error() {
    let err = get_next_algoout_value(b"").expect_err("nothing to read");
    assert!(matches!(err, RunnerError::NoValue));
    assert_eq!(err.kind(), ErrorKind::Protocol);
    let err = get_next_algoout_value(b" \n\t ").expect_err("nothing to read");
    assert!(matches!(err, RunnerError::NoValue));
}

#[test]
fn a_malformed_stream_is_a_protocol_error() {
    let err = get_next_algoout_value(b"not json").expect_err("malformed");
    assert!(matches!(err, RunnerError::Malformed(_)));
    assert_eq!(err.kind(), ErrorKind::Protocol);
    let err = get_next_algoout_value(b"{\"result\":").expect_err("cut short");
    match err {
        RunnerError::Malformed(inner) => assert!(inner.is_eof()),
        other => panic!("unexpected error {:?}", other),
    }
}

#[test]
fn read_outcome_classifies_each_step() {
    assert!(matches!(read_outcome(None), Err(RunnerError::NoValue)));
    let ok: Result<Value, serde_json::Error> = serde_json::from_str("[1]");
    assert_eq!(read_outcome(Some(ok)).expect("a value"), value("[1]"));
    let bad: Result<Value, serde_json::Error> = serde_json::from_str("[1");
    assert!(matches!(read_outcome(Some(bad)), Err(RunnerError::Malformed(_))));
}

#[test]
fn error_kinds_and_exit_codes() {
    assert_eq!(RunnerError::Launch(LaunchFault::Spawn).kind(), ErrorKind::Launch);
    assert_eq!(RunnerError::WriteClosed.kind(), ErrorKind::Write);
    assert_eq!(RunnerError::NoValue.kind(), ErrorKind::Protocol);
    assert_eq!(RunnerError::UnexpectedExit(1).kind(), ErrorKind::UnexpectedExit);
    assert_eq!(RunnerError::UnexpectedExit(1).exit_code(), Some(1));
    assert_eq!(RunnerError::NoValue.exit_code(), None);
    let bad = serde_json::from_str::<Value>("{").expect_err("malformed");
    assert_eq!(RunnerError::Encode(bad).kind(), ErrorKind::Write);
    let bad = serde_json::from_str::<Value>("{").expect_err("malformed");
    assert_eq!(RunnerError::Malformed(bad).kind(), ErrorKind::Protocol);
}

#[test]
fn outcome_follows_the_received_message() {
    assert!(matches!(Outcome::from_received(Ok(value("1"))), Outcome::Completed(_)));
    assert!(matches!(
        Outcome::from_received(Err(RunnerError::UnexpectedExit(4))),
        Outcome::Exited(RunnerError::UnexpectedExit(4))
    ));
}

#[test]
fn wait_on_an_empty_inbox_returns_nothing_and_keeps_the_lines() {
    let mut r = runner();
    r.collect_stdout(Some("kept".to_string()));
    assert!(r.wait_for_response_or_exit(short()).is_none());
    assert_eq!(r.post_result(Ok(value("0"))), Delivery::Delivered);
    let out = r.wait_for_response_or_exit(short()).expect("a message");
    assert_eq!(out.stdout, "kept");
}

#[test]
fn worker_answers_and_exits_cleanly() {
    let mut r = runner();
    let sent = r.write(&value("{\"a\":1}")).expect("input is open");
    assert_eq!(sent, b"{\"a\":1}\n".to_vec());
    r.collect_stdout(Some("working".to_string()));
    r.collect_stdout(Some("done".to_string()));
    r.collect_stderr(Some("warning".to_string()));
    assert_eq!(r.monitor(WaitEvent::Running), MonitorStep::Sleep(500));
    assert_eq!(r.post_result(get_next_algoout_value(b"{\"result\":2}")), Delivery::Delivered);
    let out = r.wait_for_response_or_exit(Elapsed { secs: 2, nanos: 7 }).expect("a message");
    match out.outcome {
        Outcome::Completed(v) => assert_eq!(v, value("{\"result\":2}")),
        other => panic!("unexpected outcome {:?}", other),
    }
    assert_eq!(out.duration, Elapsed { secs: 2, nanos: 7 });
    assert_eq!(out.stdout, "working\ndone");
    assert_eq!(out.stderr, "warning");
    assert_eq!(r.monitor(WaitEvent::Exited(Some(0))), MonitorStep::Posted(0));
    assert_eq!(r.stop(WaitEvent::Running), StopReport { code: 0, kill: false });
}

#[test]
fn worker_crashes_before_answering() {
    let mut r = runner();
    r.write(&value("{\"a\":1}")).expect("input is open");
    r.collect_stderr(Some("panic!".to_string()));
    assert_eq!(r.monitor(WaitEvent::Running), MonitorStep::Sleep(500));
    assert_eq!(r.monitor(WaitEvent::Exited(Some(1))), MonitorStep::Posted(1));
    let out = r.wait_for_response_or_exit(short()).expect("a message");
    match out.outcome {
        Outcome::Exited(err) => {
            assert_eq!(err.kind(), ErrorKind::UnexpectedExit);
            assert_eq!(err.exit_code(), Some(1));
        }
        other => panic!("unexpected outcome {:?}", other),
    }
    assert_eq!(out.stdout, "");
    assert_eq!(out.stderr, "panic!");
    assert_eq!(out.duration, short());
}

#[test]
fn worker_writes_malformed_bytes() {
    let mut r = runner();
    r.collect_stdout(Some("about to answer".to_string()));
    r.collect_stderr(Some("hm".to_string()));
    assert_eq!(r.post_result(get_next_algoout_value(b"}{ this is no JSON")), Delivery::Delivered);
    let out = r.wait_for_response_or_exit(short()).expect("a message");
    match out.outcome {
        Outcome::Exited(err) => {
            assert!(matches!(err, RunnerError::Malformed(_)));
            assert_eq!(err.kind(), ErrorKind::Protocol);
        }
        other => panic!("unexpected outcome {:?}", other),
    }
    assert_eq!(out.stdout, "about to answer");
    assert_eq!(out.stderr, "hm");
    assert_eq!(r.monitor(WaitEvent::Exited(Some(0))), MonitorStep::Posted(0));
}

#[test]
fn worker_ignores_the_end_of_input() {
    let mut r = runner();
    assert_eq!(r.poll_action(), PollAction::Wait(10));
    assert_eq!(r.check_exited(WaitEvent::Running), None);
    assert_eq!(r.stop_action(), StopAction::CloseInputAndWait(3000));
    let report = r.stop(WaitEvent::Running);
    assert_eq!(report, StopReport { code: UNKNOWN_EXIT, kill: true });
    assert_eq!(r.stop_action(), StopAction::ReturnCached(UNKNOWN_EXIT));
    assert_eq!(r.stop(WaitEvent::Running), StopReport { code: UNKNOWN_EXIT, kill: false });
    assert!(matches!(r.write(&value("1")), Err(RunnerError::WriteClosed)));
}

#[test]
fn the_first_message_wins_and_the_second_waits_its_turn() {
    let mut r = runner();
    assert_eq!(r.post_result(Ok(value("\"first\""))), Delivery::Delivered);
    assert_eq!(r.monitor(WaitEvent::Exited(Some(9))), MonitorStep::Posted(9));
    let out = r.wait_for_response_or_exit(short()).expect("a message");
    assert!(matches!(out.outcome, Outcome::Completed(_)));
    let out = r.wait_for_response_or_exit(short()).expect("a message");
    assert!(matches!(out.outcome, Outcome::Exited(RunnerError::UnexpectedExit(9))));
    assert!(r.wait_for_response_or_exit(short()).is_none());
}

#[test]
fn the_monitor_posts_once_and_ends_for_good() {
    let mut r = runner();
    assert_eq!(r.monitor(WaitEvent::Running), MonitorStep::Sleep(500));
    assert_eq!(r.monitor(WaitEvent::Failed), MonitorStep::Posted(-99));
    assert_eq!(r.monitor(WaitEvent::Exited(Some(0))), MonitorStep::Ended);
    assert_eq!(r.monitor(WaitEvent::Running), MonitorStep::Ended);
    assert!(r.wait_for_response_or_exit(short()).is_some());
    assert!(r.wait_for_response_or_exit(short()).is_none());
    assert_eq!(r.check_exited(WaitEvent::Running), Some(-99));
}

#[test]
fn the_monitor_reports_an_exit_that_a_stop_recorded() {
    let mut r = runner();
    assert_eq!(r.stop(WaitEvent::Exited(Some(0))), StopReport { code: 0, kill: false });
    assert_eq!(r.monitor(WaitEvent::Running), MonitorStep::Posted(0));
}

#[test]
fn a_disconnected_inbox_makes_a_detected_exit_fatal() {
    let mut r = runner();
    assert_eq!(r.post_result(Ok(value("1"))), Delivery::Delivered);
    r.disconnect();
    assert!(r.wait_for_response_or_exit(short()).is_none());
    assert_eq!(r.monitor(WaitEvent::Running), MonitorStep::Sleep(500));
    assert_eq!(r.monitor(WaitEvent::Exited(Some(6))), MonitorStep::Fatal(6));
    assert_eq!(r.monitor(WaitEvent::Exited(Some(6))), MonitorStep::Ended);
    assert!(r.wait_for_response_or_exit(short()).is_none());
    assert_eq!(r.check_exited(WaitEvent::Running), Some(6));
}

#[test]
fn a_disconnected_inbox_makes_a_posted_result_fatal() {
    let mut r = runner();
    r.disconnect();
    assert_eq!(r.post_result(Ok(value("1"))), Delivery::Fatal(UNKNOWN_EXIT));
    assert_eq!(r.post_result(Err(RunnerError::NoValue)), Delivery::Fatal(-99));
    assert!(r.wait_for_response_or_exit(short()).is_none());
}
