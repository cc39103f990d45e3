use system_harness::container::remove_on_drop;
use system_harness::{
    output_to_result, shutdown_on_drop, strip_last_newline, ContainerOp, ContainerState,
    ContainerSystem, ContainerSystemConfig, Error, ErrorKind, Key, Status,
};

fn system() -> ContainerSystem {
    ContainerSystemConfig {
        tool: "docker".to_string(),
        image: "alpine".to_string(),
    }
    .system("c0ffee".to_string())
}

#[test]
fn create_command() {
    let config = ContainerSystemConfig {
        tool: "podman".to_string(),
        image: "alpine:3".to_string(),
    };
    let command = config.create_command();
    assert_eq!("podman", command.program);
    assert_eq!(vec!["create", "-t", "alpine:3"], command.args);
}

#[test]
fn operation_commands() {
    let system = system();
    let args = |op| system.command(op).args;
    assert_eq!(vec!["start", "c0ffee"], args(ContainerOp::Start));
    assert_eq!(vec!["pause", "c0ffee"], args(ContainerOp::Pause));
    assert_eq!(vec!["unpause", "c0ffee"], args(ContainerOp::Unpause));
    assert_eq!(vec!["stop", "c0ffee"], args(ContainerOp::Stop));
    assert_eq!(vec!["inspect", "c0ffee"], args(ContainerOp::Inspect));
    assert_eq!(vec!["rm", "-f", "c0ffee"], args(ContainerOp::Remove));
    assert_eq!(vec!["exec", "-it", "c0ffee", "sh"], args(ContainerOp::Shell));
    assert_eq!("docker", system.command(ContainerOp::Stop).program);
}

#[test]
fn strip_newlines() {
    assert_eq!("abc", strip_last_newline("abc\n"));
    assert_eq!("abc", strip_last_newline("abc\r\n"));
    assert_eq!("abc\n", strip_last_newline("abc\n\n"));
    assert_eq!("abc", strip_last_newline("abc"));
    assert_eq!("", strip_last_newline("\n"));
    assert_eq!("", strip_last_newline(""));
}

#[test]
fn output_success_is_trimmed_stdout() {
    assert_eq!("c0ffee", output_to_result(true, b"c0ffee\n", b"").unwrap());
    assert_eq!("h\u{e9}", output_to_result(true, "h\u{e9}\r\n".as_bytes(), b"").unwrap());
}

#[test]
fn output_failure_is_stderr() {
    let err = output_to_result(false, b"ignored", b"no such container").unwrap_err();
    assert_eq!(ErrorKind::HarnessError, err.kind());
    assert_eq!("no such container", err.to_string());
}

#[test]
fn output_not_utf8_is_io_error() {
    assert_eq!(ErrorKind::IO, output_to_result(true, &[0xff, 0xfe], b"").unwrap_err().kind());
    assert_eq!(ErrorKind::IO, output_to_result(false, b"", &[0xc3]).unwrap_err().kind());
}

#[test]
fn status_from_inspection() {
    let state = |running, paused| vec![ContainerState { running, paused }];
    assert_eq!(Status::Running, ContainerSystem::status_from_inspect(&state(true, false)).unwrap());
    assert_eq!(Status::Running, ContainerSystem::status_from_inspect(&state(true, true)).unwrap());
    assert_eq!(Status::Paused, ContainerSystem::status_from_inspect(&state(false, true)).unwrap());
    assert_eq!(Status::Shutdown, ContainerSystem::status_from_inspect(&state(false, false)).unwrap());
}

#[test]
fn removed_container_status_is_error() {
    let err = ContainerSystem::status_from_inspect(&[]).unwrap_err();
    assert_eq!(ErrorKind::HarnessError, err.kind());
    assert_eq!("Container doesn't exist", err.to_string());
}

#[test]
fn send_key_is_unsupported() {
    let err = system().send_key(Key::Enter).unwrap_err();
    assert_eq!(ErrorKind::HarnessError, err.kind());
}

#[test]
fn disposal_decisions() {
    assert!(shutdown_on_drop(&Ok(true)));
    assert!(!shutdown_on_drop(&Ok(false)));
    assert!(!shutdown_on_drop(&Err(Error::new(ErrorKind::IO, "gone"))));
    assert!(remove_on_drop(&Ok(())));
    assert!(!remove_on_drop(&Err(Error::new(ErrorKind::HarnessError, "stop failed"))));
}
