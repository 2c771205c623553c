use twilio_recv::{
    build_policy, check_num, format_line, log_file_path, recv_callback_error, recv_callback_log,
    rfc3339, step, DispatchAction, DispatchEvent, DispatchState, InboundMessage, LogEntry,
    LogLevel, NumberAcceptance, Response, Status, UtcTime,
};

fn message(from: &str) -> InboundMessage {
    InboundMessage::new(
        "SID1".to_string(),
        "ACC1".to_string(),
        from.to_string(),
        "+15554443333".to_string(),
        "Hello, World!".to_string(),
    )
}

/// Drives the dispatcher through one request; returns the response, the
/// log lines in order and whether the handler ran.
fn run(config: Option<&str>, msg: &InboundMessage, handler_ok: bool) -> (Response, Vec<LogEntry>, bool) {
    let mut state = DispatchState::Received;
    let mut event = DispatchEvent::Start;
    let mut logs = Vec::new();
    let mut invoked = false;
    loop {
        let s = step(state, event, msg);
        state = s.state;
        logs.extend(s.logs);
        event = match s.action {
            DispatchAction::ResolveConfig => {
                DispatchEvent::ConfigResolved(config.map(|c| c.to_string()))
            }
            DispatchAction::InvokeHandler => {
                invoked = true;
                DispatchEvent::HandlerReturned(handler_ok)
            }
            DispatchAction::Respond(r) => return (r, logs, invoked),
            DispatchAction::Ignore => panic!("dispatcher ignored an event in order"),
        };
    }
}

fn messages(logs: &[LogEntry]) -> Vec<(LogLevel, String)> {
    logs.iter().map(|e| (e.level, e.message.clone())).collect()
}

fn accepts(policy: &NumberAcceptance, candidate: &str) -> bool {
    policy.evaluate(&candidate.to_string())
}

#[test]
fn test() {
    let inbound = InboundMessage::new(
        "TEST".to_string(),
        "TEST".to_string(),
        "+15555555555".to_string(),
        "+15554443333".to_string(),
        "Hello, World!".to_string(),
    );
    let (r, _, invoked) = run(Some("*"), &inbound, true);
    assert!(invoked);
    assert_eq!(r.status, Status::Success);
}

#[test]
fn any_policy_accepts_every_sender() {
    let p = NumberAcceptance::All;
    for c in ["", "+15555555555", "anything", "*", " , "] {
        assert!(accepts(&p, c));
    }
}

#[test]
fn exactly_policy_matches_only_the_exact_text() {
    let p = NumberAcceptance::Single("+15555555555".to_string());
    assert!(accepts(&p, "+15555555555"));
    assert!(!accepts(&p, "+1555555555"));
    assert!(!accepts(&p, "+155555555555"));
    assert!(!accepts(&p, "15555555555"));
    assert!(!accepts(&p, " +15555555555"));
    assert!(!accepts(&p, ""));
}

#[test]
fn one_of_policy_accepts_members_only() {
    let p = NumberAcceptance::Specific(vec!["+1A".to_string(), "+1B".to_string()]);
    assert!(accepts(&p, "+1A"));
    assert!(accepts(&p, "+1B"));
    assert!(!accepts(&p, "+1C"));
    assert!(!accepts(&p, "+1a"));
    assert!(!accepts(&p, "+1A,+1B"));
    assert!(!accepts(&p, ""));
}

#[test]
fn one_of_policy_with_duplicates() {
    let p = NumberAcceptance::Specific(vec!["+1A".to_string(), "+1A".to_string()]);
    assert!(accepts(&p, "+1A"));
    assert!(!accepts(&p, "+1B"));
}

fn listed(p: NumberAcceptance) -> Vec<String> {
    match p {
        NumberAcceptance::Specific(ns) => ns,
        _ => panic!("expected a list of numbers"),
    }
}

fn single(p: NumberAcceptance) -> String {
    match p {
        NumberAcceptance::Single(n) => n,
        _ => panic!("expected a single number"),
    }
}

#[test]
fn build_policy_reads_the_three_forms() {
    assert!(matches!(build_policy("*"), NumberAcceptance::All));
    assert_eq!(listed(build_policy("+1A,+1B")), vec!["+1A", "+1B"]);
    assert_eq!(single(build_policy("+1A")), "+1A");
}

#[test]
fn build_policy_keeps_segments_verbatim() {
    assert_eq!(listed(build_policy(" +1A, +1B ")), vec![" +1A", " +1B "]);
    assert_eq!(listed(build_policy("a,,b")), vec!["a", "", "b"]);
    assert_eq!(listed(build_policy(",")), vec!["", ""]);
    assert_eq!(listed(build_policy("*,+1A")), vec!["*", "+1A"]);
    assert_eq!(single(build_policy("")), "");
    assert_eq!(single(build_policy("**")), "**");
    assert_eq!(single(build_policy(" *")), " *");
}

#[test]
fn built_policy_decides_on_the_sender() {
    assert!(check_num(build_policy("*"), &message("")));
    assert!(check_num(build_policy("+1A,+1B"), &message("+1B")));
    assert!(!check_num(build_policy("+1A,+1B"), &message("+1C")));
    assert!(check_num(build_policy("+15555555555"), &message("+15555555555")));
    assert!(!check_num(build_policy("+15555555555"), &message("+19999999999")));
    assert!(!check_num(build_policy(""), &message("+15555555555")));
}

#[test]
fn message_accessors_round_trip() {
    let m = InboundMessage::new(
        "SID1".to_string(),
        "ACC1".to_string(),
        "+15555555555".to_string(),
        "+15554443333".to_string(),
        "Hello, World!".to_string(),
    );
    assert_eq!(m.get_message_sid(), "SID1");
    assert_eq!(m.get_account_sid(), "ACC1");
    assert_eq!(m.get_from(), "+15555555555");
    assert_eq!(m.get_to(), "+15554443333");
    assert_eq!(m.get_body(), "Hello, World!");
}

#[test]
fn dispatch_succeeds_only_when_accepted_and_handled() {
    let configs = [None, Some("*"), Some("+15555555555"), Some("+1A,+15555555555"), Some("+1A,+1B")];
    for config in configs {
        for handler_ok in [true, false] {
            let msg = message("+15555555555");
            let (r, _, _) = run(config, &msg, handler_ok);
            let accepted = config.is_some() && config != Some("+1A,+1B");
            assert_eq!(r.status == Status::Success, accepted && handler_ok);
            if r.status == Status::Success {
                assert_eq!(r.body, "Message handler succeeded");
            }
        }
    }
}

#[test]
fn dispatch_rejects_sender_without_running_handler() {
    for handler_ok in [true, false] {
        let (r, logs, invoked) = run(Some("+1A,+1B"), &message("+1C"), handler_ok);
        assert!(!invoked);
        assert_eq!(r.status, Status::ServerError);
        assert_eq!(r.body, "Invalid \"from\" number");
        assert_eq!(
            messages(&logs),
            vec![
                (LogLevel::Log, "Received request".to_string()),
                (LogLevel::Log, "Accepting specific numbers".to_string()),
                (LogLevel::Error, "From number failed check against accepted numbers".to_string()),
            ]
        );
    }
}

#[test]
fn dispatch_reports_handler_failure() {
    let (r, logs, invoked) = run(Some("+15555555555"), &message("+15555555555"), false);
    assert!(invoked);
    assert_eq!(r.status, Status::ServerError);
    assert_eq!(r.body, "Message handler failed");
    assert_eq!(
        messages(&logs),
        vec![
            (LogLevel::Log, "Received request".to_string()),
            (LogLevel::Log, "Accepting single number".to_string()),
            (LogLevel::Error, "Handler failed".to_string()),
        ]
    );
}

#[test]
fn dispatch_reports_missing_configuration() {
    let (r, logs, invoked) = run(None, &message("+15555555555"), true);
    assert!(!invoked);
    assert_eq!(r.status, Status::ServerError);
    assert_eq!(r.body, "Failed to retrieve accepted numbers from environment");
    assert_eq!(logs.len(), 2);
    assert_eq!(logs[1].level, LogLevel::Error);
}

#[test]
fn end_to_end_any_configuration_succeeds() {
    for from in ["+15555555555", "+19999999999", ""] {
        let (r, logs, invoked) = run(Some("*"), &message(from), true);
        assert!(invoked);
        assert_eq!(r.status, Status::Success);
        assert_eq!(r.body, "Message handler succeeded");
        assert_eq!(
            messages(&logs),
            vec![
                (LogLevel::Log, "Received request".to_string()),
                (LogLevel::Log, "Accepting all numbers".to_string()),
                (LogLevel::Log, "Handler succeeded".to_string()),
            ]
        );
    }
}

#[test]
fn end_to_end_exact_configuration_rejects_other_sender() {
    let (r, _, invoked) = run(Some("+15555555555"), &message("+19999999999"), true);
    assert!(!invoked);
    assert_eq!(r.status, Status::ServerError);
    assert_eq!(r.body, "Invalid \"from\" number");
}

#[test]
fn dispatch_ignores_events_out_of_order() {
    let msg = message("+15555555555");
    let s = step(DispatchState::Received, DispatchEvent::HandlerReturned(true), &msg);
    assert_eq!(s.state, DispatchState::Received);
    assert!(s.logs.is_empty());
    assert!(matches!(s.action, DispatchAction::Ignore));
    let s = step(DispatchState::Finished, DispatchEvent::Start, &msg);
    assert_eq!(s.state, DispatchState::Finished);
    assert!(matches!(s.action, DispatchAction::Ignore));
    let s = step(DispatchState::AwaitingConfig, DispatchEvent::HandlerReturned(true), &msg);
    assert_eq!(s.state, DispatchState::AwaitingConfig);
    assert!(matches!(s.action, DispatchAction::Ignore));
}

#[test]
fn log_lines_are_laid_out_with_fixed_width_tags() {
    let ts = "2024-03-05T07:08:09+00:00";
    assert_eq!(
        format_line(LogLevel::Log, ts, "Received request"),
        "LOG   2024-03-05T07:08:09+00:00: Received request\n"
    );
    assert_eq!(
        format_line(LogLevel::Error, ts, "Handler failed"),
        "ERROR 2024-03-05T07:08:09+00:00: Handler failed\n"
    );
    assert_eq!(format_line(LogLevel::Log, "", ""), "LOG   : \n");
}

#[test]
fn log_line_is_one_line() {
    let line = format_line(LogLevel::Error, "2024-01-01T00:00:00+00:00", "x, y: z");
    assert!(line.ends_with('\n'));
    assert_eq!(line.matches('\n').count(), 1);
}

#[test]
fn timestamps_are_zero_padded() {
    let t = UtcTime { year: 2024, month: 3, day: 5, hour: 7, minute: 8, second: 9 };
    assert_eq!(rfc3339(&t), "2024-03-05T07:08:09+00:00");
    let t = UtcTime { year: 987, month: 12, day: 31, hour: 23, minute: 59, second: 60 };
    assert_eq!(rfc3339(&t), "0987-12-31T23:59:60+00:00");
}

#[test]
fn log_files_are_named_by_day() {
    let t = UtcTime { year: 2024, month: 3, day: 5, hour: 23, minute: 59, second: 59 };
    assert_eq!(log_file_path("/var/log", "recv", &t), "/var/log/recv.20240305.log");
    let t = UtcTime { year: 1999, month: 12, day: 31, hour: 0, minute: 0, second: 0 };
    assert_eq!(log_file_path("", "", &t), "/.19991231.log");
}

#[test]
fn callback_entries_are_prefixed() {
    let e = recv_callback_log("stored message");
    assert_eq!(e.level, LogLevel::Log);
    assert_eq!(e.message, "Callback - stored message");
    let e = recv_callback_error("");
    assert_eq!(e.level, LogLevel::Error);
    assert_eq!(e.message, "Callback - ");
}
