use system_harness::{
    create_event, ErrorKind, Event, EventKind, Key, KeyCommand, KeyValue, QemuVersion,
    QmpAction, QmpCommand, QmpEmptyReturn, QmpPhase, QmpResponse, QmpReturn, QmpSession,
    QmpStatusInfo, QmpTimestamp, Status,
};

#[test]
fn serialize_send_key() {
    const EXPECTED_COMMAND: &'static str =
        r#"{"execute":"send-key","arguments":{"keys":[{"type":"qcode","data":"ret"}]}}"#;
    let command = QmpCommand::SendKey(KeyCommand {
        keys: vec![KeyValue::from_key(Key::Enter)],
    });
    let actual = command.to_json();
    assert_eq!(EXPECTED_COMMAND, actual);
}

#[test]
fn serialize_quit() {
    const EXPECTED_COMMAND: &'static str = r#"{"execute":"quit"}"#;
    let actual = QmpCommand::Quit.to_json();
    assert_eq!(EXPECTED_COMMAND, actual);
}

#[test]
fn serialize_other_commands() {
    assert_eq!(r#"{"execute":"qmp_capabilities"}"#, QmpCommand::QmpCapabilities.to_json());
    assert_eq!(r#"{"execute":"query-status"}"#, QmpCommand::QueryStatus.to_json());
    assert_eq!(r#"{"execute":"stop"}"#, QmpCommand::Stop.to_json());
    assert_eq!(r#"{"execute":"cont"}"#, QmpCommand::Cont.to_json());
    assert_eq!(r#"{"execute":"system_powerdown"}"#, QmpCommand::SystemPowerdown.to_json());
}

#[test]
fn frame_ends_with_line_break() {
    assert_eq!("{\"execute\":\"quit\"}\n", QmpCommand::Quit.to_frame());
}

#[test]
fn send_key_escapes_and_numbers() {
    let command = QmpCommand::SendKey(KeyCommand {
        keys: vec![
            KeyValue::Qcode { data: "a\"b\\c".to_string() },
            KeyValue::Number { data: 28 },
        ],
    });
    assert_eq!(
        r#"{"execute":"send-key","arguments":{"keys":[{"type":"qcode","data":"a\"b\\c"},{"type":"number","data":28}]}}"#,
        command.to_json()
    );
}

#[test]
fn key_command_from_keys() {
    let command = KeyCommand::from_keys(&[Key::Enter, Key::Enter]);
    assert_eq!(2, command.keys.len());
    assert_eq!(
        r#"{"type":"qcode","data":"ret"},{"type":"qcode","data":"ret"}"#,
        command.keys_json()
    );
}

fn info(status: &str) -> QmpStatusInfo {
    QmpStatusInfo {
        running: status == "running",
        singlestep: false,
        status: status.to_string(),
    }
}

#[test]
fn status_translation() {
    assert_eq!(Status::Running, info("running").to_status().unwrap());
    assert_eq!(Status::Shutdown, info("shutdown").to_status().unwrap());
    assert_eq!(Status::Paused, info("paused").to_status().unwrap());
    assert_eq!(Status::Paused, info("save-vm").to_status().unwrap());
    let err = info("inmigrate").to_status().unwrap_err();
    assert_eq!(ErrorKind::HarnessError, err.kind());
    assert_eq!("Unsupported status: inmigrate", err.to_string());
}

#[test]
fn status_from_return() {
    let ret = QmpReturn::StatusInfo(info("paused"));
    assert_eq!(Status::Paused, ret.to_status().unwrap());
    let empty = QmpReturn::Empty(QmpEmptyReturn {});
    assert_eq!(ErrorKind::HarnessError, empty.to_status().unwrap_err().kind());
}

#[test]
fn events_from_names() {
    let t = QmpTimestamp { seconds: 2, microseconds: 5 };
    assert_eq!(
        Some(Event { kind: EventKind::Shutdown, timestamp: 2_000_005 }),
        create_event(t, "POWERDOWN")
    );
    assert_eq!(Some(EventKind::Pause), create_event(t, "STOP").map(|e| e.kind));
    assert_eq!(Some(EventKind::Resume), create_event(t, "RESUME").map(|e| e.kind));
    assert_eq!(None, create_event(t, "SHUTDOWN"));
    assert_eq!(None, create_event(t, "stop"));
}

#[test]
fn timestamp_does_not_overflow() {
    let t = QmpTimestamp { seconds: u64::MAX, microseconds: u64::MAX };
    assert_eq!(u64::MAX as u128 * 1_000_000 + u64::MAX as u128, t.micros());
}

fn ready_session() -> QmpSession {
    let mut session = QmpSession::new();
    let line = session
        .greet(QemuVersion { major: 8, minor: 2, micro: 1 })
        .unwrap();
    assert_eq!("{\"execute\":\"qmp_capabilities\"}\n", line);
    match session.receive(QmpResponse::Success {
        return_data: QmpReturn::Empty(QmpEmptyReturn {}),
    }) {
        QmpAction::Complete(_) => {}
        _ => panic!("handshake not acknowledged"),
    }
    session
}

fn event(name: &str, seconds: u64) -> QmpResponse {
    QmpResponse::Event {
        timestamp: QmpTimestamp { seconds, microseconds: 0 },
        event: name.to_string(),
    }
}

fn ok() -> QmpResponse {
    QmpResponse::Success { return_data: QmpReturn::Empty(QmpEmptyReturn {}) }
}

/// Runs one command against the given replies, collecting delivered events.
fn run(session: &mut QmpSession, command: QmpCommand, replies: Vec<QmpResponse>) -> Vec<EventKind> {
    session.begin(&command).unwrap();
    let mut events = Vec::new();
    for reply in replies {
        match session.receive(reply) {
            QmpAction::Deliver(e) => events.push(e.kind),
            QmpAction::Skip => {}
            QmpAction::Complete(_) => break,
            QmpAction::Fail(e) => panic!("command failed: {}", e.to_string()),
        }
    }
    events
}

#[test]
fn handshake_and_version() {
    let session = ready_session();
    assert_eq!(QmpPhase::Ready, session.phase());
    assert_eq!(Some(QemuVersion { major: 8, minor: 2, micro: 1 }), session.version());
}

#[test]
fn pause_resume_shutdown_deliver_each_event_once() {
    let mut session = ready_session();
    let mut seen = Vec::new();
    seen.extend(run(&mut session, QmpCommand::Stop, vec![event("STOP", 1), ok()]));
    seen.extend(run(&mut session, QmpCommand::Cont, vec![ok()]));
    seen.extend(run(
        &mut session,
        QmpCommand::SystemPowerdown,
        vec![event("RESUME", 2), event("BLOCK_JOB_READY", 3), ok()],
    ));
    seen.extend(run(&mut session, QmpCommand::Quit, vec![event("POWERDOWN", 4), ok()]));
    assert_eq!(vec![EventKind::Pause, EventKind::Resume, EventKind::Shutdown], seen);
}

#[test]
fn error_reply_fails_the_command() {
    let mut session = ready_session();
    session.begin(&QmpCommand::QueryStatus).unwrap();
    match session.receive(QmpResponse::Error { error: "boom".to_string() }) {
        QmpAction::Fail(e) => {
            assert_eq!(ErrorKind::HarnessError, e.kind());
            assert_eq!("boom", e.to_string());
        }
        _ => panic!("expected a failure"),
    }
    assert_eq!(QmpPhase::Ready, session.phase());
}

#[test]
fn one_command_in_flight() {
    let mut session = ready_session();
    assert_eq!("{\"execute\":\"stop\"}\n", session.begin(&QmpCommand::Stop).unwrap());
    let err = session.begin(&QmpCommand::Cont).unwrap_err();
    assert_eq!(ErrorKind::HarnessError, err.kind());
    assert_eq!(QmpPhase::Waiting, session.phase());
    session.abort();
    assert_eq!(QmpPhase::Ready, session.phase());
}

#[test]
fn unexpected_messages() {
    let mut fresh = QmpSession::new();
    assert!(fresh.begin(&QmpCommand::Stop).is_err());
    match fresh.receive(ok()) {
        QmpAction::Fail(e) => assert_eq!(ErrorKind::HarnessError, e.kind()),
        _ => panic!("expected a failure"),
    }
    let mut session = ready_session();
    assert!(session.greet(QemuVersion { major: 1, minor: 0, micro: 0 }).is_err());
    match session.receive(event("STOP", 1)) {
        QmpAction::Fail(_) => {}
        _ => panic!("no command was in flight"),
    }
}

#[test]
fn refused_handshake_leaves_connection_unusable() {
    let mut session = QmpSession::new();
    session.greet(QemuVersion { major: 8, minor: 0, micro: 0 }).unwrap();
    match session.receive(QmpResponse::Error { error: "no".to_string() }) {
        QmpAction::Fail(_) => {}
        _ => panic!("expected a failure"),
    }
    assert_eq!(QmpPhase::Failed, session.phase());
    assert!(session.begin(&QmpCommand::Stop).is_err());
}
