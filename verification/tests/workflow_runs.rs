use courier::log::DeliveryOutcome;
use courier::request::SendRequest;
use courier::stamp::Timestamp;
use courier::workflow::{Action, Event, Stage, Workflow};

fn request(recipient: &str, cc: Option<&str>) -> SendRequest {
    SendRequest {
        sender: String::from("a@x.com"),
        credential: String::from("code"),
        recipient: String::from(recipient),
        cc: cc.map(String::from),
        bcc: None,
        report_path: String::from("report.html"),
        server_host: String::from("smtp.x.com"),
    }
}

fn clock() -> Event {
    Event::ClockRead { now: Timestamp::new(2024, 3, 9, 8, 5, 1) }
}

fn report() -> Event {
    Event::ReportRead { bytes: Some(b"<h1>ok</h1>".to_vec()) }
}

/// Runs the events in turn and gives the last state and action.
fn run(events: Vec<Event>) -> (Workflow, Action) {
    let mut state = Workflow::start();
    let mut last = None;
    for event in events {
        let (next, action) = state.step(event);
        state = next;
        last = Some(action);
    }
    (state, last.expect("at least one event"))
}

fn failed_with(state: &Workflow, action: &Action, expected: &str) {
    assert!(matches!(state, Workflow::Done { failed: true }));
    match action {
        Action::Abort { diagnostic } => assert_eq!(diagnostic, expected),
        other => panic!("expected an abort, got {:?}", other),
    }
}

#[test]
fn a_run_starts_by_waiting_for_the_arguments() {
    assert_eq!(Workflow::start().stage(), Stage::ParsingArgs);
}

#[test]
fn parsed_arguments_ask_for_the_report() {
    let (state, action) = run(vec![Event::ArgsParsed { request: request("b@x.com", None) }]);
    assert_eq!(state.stage(), Stage::LoadingReport);
    assert!(matches!(action, Action::ReadReport { path } if path == "report.html"));
}

#[test]
fn rejected_arguments_end_the_run() {
    let (state, action) = run(vec![Event::ArgsRejected { usage: String::from("usage: ...") }]);
    failed_with(&state, &action, "usage: ...");
}

#[test]
fn a_read_report_asks_for_the_clock() {
    let (state, action) =
        run(vec![Event::ArgsParsed { request: request("b@x.com", None) }, report()]);
    assert_eq!(state.stage(), Stage::Composing);
    assert!(matches!(action, Action::ReadClock));
}

#[test]
fn successful_send_is_logged_for_the_recipient() {
    let (state, action) = run(vec![
        Event::ArgsParsed { request: request("b@x.com", None) },
        report(),
        clock(),
    ]);
    assert_eq!(state.stage(), Stage::Sending);
    match action {
        Action::Send { message, host, login } => {
            assert_eq!(host, "smtp.x.com");
            assert_eq!(login.username, "a@x.com");
            assert_eq!(login.secret, "code");
            assert_eq!(message.attachment.content, b"<h1>ok</h1>");
            assert_eq!(message.attachment.filename, "report.html");
            assert_eq!(message.inline.content, "<h1>ok</h1>");
            assert_eq!(message.subject, "Linux应急响应报告 - 2024-03-09 08:05:01");
            assert_eq!(message.to.user, "b");
            assert_eq!(message.to.domain, "x.com");
        }
        other => panic!("expected a send, got {:?}", other),
    }
    let (state, action) = state.step(Event::SendReturned { outcome: DeliveryOutcome::Delivered });
    assert_eq!(state.stage(), Stage::Logging);
    match action {
        Action::Record { record } => {
            assert_eq!(record.line(), "[+] 2024-03-09 08:05:01 邮件发送成功！收信人：b@x.com");
            assert_eq!(record.console_line(), "[+] 2024-03-09 08:05:01 邮件发送成功!");
            assert!(!record.on_stderr());
        }
        other => panic!("expected a record, got {:?}", other),
    }
    let (state, action) = state.step(Event::LogWritten);
    assert!(matches!(state, Workflow::Done { failed: false }));
    assert!(matches!(action, Action::Finish));
}

#[test]
fn successful_send_with_cc_is_logged_for_both() {
    let (state, action) = run(vec![
        Event::ArgsParsed { request: request("b@x.com", Some("c@x.com")) },
        report(),
        clock(),
    ]);
    match action {
        Action::Send { message, .. } => {
            let cc = message.cc.expect("cc was supplied");
            assert_eq!((cc.user.as_str(), cc.domain.as_str()), ("c", "x.com"));
        }
        other => panic!("expected a send, got {:?}", other),
    }
    let (_, action) = state.step(Event::SendReturned { outcome: DeliveryOutcome::Delivered });
    match action {
        Action::Record { record } => assert_eq!(
            record.line(),
            "[+] 2024-03-09 08:05:01 邮件发送成功！收信人：b@x.com, 抄送人：c@x.com"
        ),
        other => panic!("expected a record, got {:?}", other),
    }
}

#[test]
fn malformed_recipient_aborts_before_sending() {
    let mut state = Workflow::start();
    let mut actions = Vec::new();
    for event in [
        Event::ArgsParsed { request: request("not-an-address", None) },
        report(),
        clock(),
    ] {
        let (next, action) = state.step(event);
        state = next;
        actions.push(action);
    }
    assert!(actions.iter().all(|a| !matches!(a, Action::Send { .. } | Action::Record { .. })));
    failed_with(&state, &actions[2], "解析收件邮箱地址失败: : InvalidInput");
}

#[test]
fn authentication_failure_is_logged_and_the_run_finishes() {
    let (state, _) = run(vec![
        Event::ArgsParsed { request: request("b@x.com", Some("c@x.com")) },
        report(),
        clock(),
    ]);
    let outcome = DeliveryOutcome::Failed {
        description: String::from("535 Error: authentication failed"),
    };
    let (state, action) = state.step(Event::SendReturned { outcome });
    assert_eq!(state.stage(), Stage::Logging);
    match action {
        Action::Record { record } => {
            assert_eq!(
                record.line(),
                "[!] 2024-03-09 08:05:01 邮件发送失败: 535 Error: authentication failed"
            );
            assert_eq!(record.console_line(), "发送邮件失败: 535 Error: authentication failed");
            assert!(record.on_stderr());
        }
        other => panic!("expected a record, got {:?}", other),
    }
    let (state, action) = state.step(Event::LogWritten);
    assert!(matches!(state, Workflow::Done { failed: false }));
    assert!(matches!(action, Action::Finish));
}

#[test]
fn missing_report_is_sent_as_empty_content() {
    let (state, action) = run(vec![
        Event::ArgsParsed { request: request("b@x.com", None) },
        Event::ReportRead { bytes: None },
        clock(),
    ]);
    assert_eq!(state.stage(), Stage::Sending);
    match action {
        Action::Send { message, .. } => {
            assert!(message.attachment.content.is_empty());
            assert_eq!(message.inline.content, "");
            assert_eq!(message.attachment.filename, "report.html");
        }
        other => panic!("expected a send, got {:?}", other),
    }
}

#[test]
fn unusable_clock_ends_the_run() {
    let (state, action) = run(vec![
        Event::ArgsParsed { request: request("b@x.com", None) },
        report(),
        Event::ClockRead { now: None },
    ]);
    failed_with(&state, &action, "local clock out of range");
}

#[test]
fn refused_message_is_not_logged() {
    let (state, action) = run(vec![
        Event::ArgsParsed { request: request("b@x.com", None) },
        report(),
        clock(),
        Event::MessageRefused { cause: String::from("MissingFrom") },
    ]);
    failed_with(&state, &action, "构造邮件消息体失败:: MissingFrom");
}

#[test]
fn refused_transport_is_not_logged() {
    let (state, action) = run(vec![
        Event::ArgsParsed { request: request("b@x.com", None) },
        report(),
        clock(),
        Event::TransportRefused { cause: String::from("bad host") },
    ]);
    failed_with(&state, &action, "解析SMTP服务器失败:: bad host");
}

#[test]
fn failed_log_write_ends_the_run_with_its_cause() {
    let (state, action) = run(vec![
        Event::ArgsParsed { request: request("b@x.com", None) },
        report(),
        clock(),
        Event::SendReturned { outcome: DeliveryOutcome::Delivered },
        Event::LogFailed { cause: String::from("disk full") },
    ]);
    failed_with(&state, &action, "disk full");
}

#[test]
fn an_event_out_of_order_ends_the_run() {
    let (state, action) = run(vec![Event::LogWritten]);
    failed_with(&state, &action, "event out of order");

    let (state, action) = run(vec![
        Event::ArgsParsed { request: request("b@x.com", None) },
        Event::SendReturned { outcome: DeliveryOutcome::Delivered },
    ]);
    failed_with(&state, &action, "event out of order");

    let (state, action) = run(vec![
        Event::ArgsParsed { request: request("b@x.com", None) },
        report(),
        clock(),
        clock(),
    ]);
    failed_with(&state, &action, "event out of order");
}

#[test]
fn a_finished_run_stays_finished() {
    let (state, action) = run(vec![
        Event::ArgsParsed { request: request("b@x.com", None) },
        report(),
        clock(),
        Event::SendReturned { outcome: DeliveryOutcome::Delivered },
        Event::LogWritten,
        Event::LogWritten,
    ]);
    assert_eq!(state.stage(), Stage::Done);
    assert!(matches!(action, Action::Abort { .. }));
}

#[test]
fn every_step_of_a_full_run_moves_to_a_later_stage() {
    let events = vec![
        Event::ArgsParsed { request: request("b@x.com", None) },
        report(),
        clock(),
        Event::SendReturned { outcome: DeliveryOutcome::Delivered },
        Event::LogWritten,
    ];
    let expected = [
        Stage::LoadingReport,
        Stage::Composing,
        Stage::Sending,
        Stage::Logging,
        Stage::Done,
    ];
    let mut state = Workflow::start();
    for (event, stage) in events.into_iter().zip(expected) {
        let (next, _) = state.step(event);
        assert_eq!(next.stage(), stage);
        state = next;
    }
}
