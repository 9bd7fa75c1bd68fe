use spotifyd::subprocess::{exit_action, failure_error, run_outcome, ExitAction, SubprocessError, SubprocessErrorKind};

fn command_text(e: &SubprocessError) -> Option<String> {
    match &e.kind {
        SubprocessErrorKind::Command { stderr } => Some(stderr.clone()),
        _ => None,
    }
}

#[test]
fn run_success_returns_stdout() {
    let r = run_outcome("/bin/sh", "echo hello", true, b"hello\n".to_vec(), vec![]);
    assert_eq!(r.unwrap(), "hello\n");
}

#[test]
fn run_failure_is_command_failure() {
    let e = run_outcome("/bin/sh", "exit 1", false, vec![], vec![]).unwrap_err();
    assert_eq!(e.shell, "/bin/sh");
    assert_eq!(e.cmd, "exit 1");
    assert_eq!(command_text(&e).as_deref(), Some(""));
}

#[test]
fn run_failure_carries_stderr() {
    let e = run_outcome("sh", "false", false, b"out".to_vec(), b"oops\n".to_vec()).unwrap_err();
    assert_eq!(command_text(&e).as_deref(), Some("oops\n"));
}

#[test]
fn run_with_invalid_stdout_is_undecodable() {
    let e = run_outcome("sh", "cmd", true, vec![0x66, 0xff], vec![]).unwrap_err();
    assert!(matches!(e.kind, SubprocessErrorKind::Undecodable));
    assert_eq!(e.cmd, "cmd");
}

#[test]
fn run_decodes_multibyte_text() {
    let r = run_outcome("sh", "cmd", true, "héllo".as_bytes().to_vec(), vec![]);
    assert_eq!(r.unwrap(), "héllo");
}

#[test]
fn exit_success_relays_stdout_once() {
    match exit_action("sh", "printf ok", true, b"ok".to_vec(), b"ignored".to_vec()) {
        ExitAction::Relay(out) => assert_eq!(out, b"ok".to_vec()),
        ExitAction::Fail(_) => panic!("expected relay"),
    }
}

#[test]
fn exit_failure_carries_stderr() {
    match exit_action("sh", "echo bad >&2; exit 1", false, vec![], b"bad".to_vec()) {
        ExitAction::Fail(e) => {
            assert_eq!(command_text(&e).as_deref(), Some("bad"));
            assert_eq!(e.shell, "sh");
            assert_eq!(e.cmd, "echo bad >&2; exit 1");
        }
        ExitAction::Relay(_) => panic!("expected failure"),
    }
}

#[test]
fn exit_failure_with_invalid_stderr_is_undecodable() {
    match exit_action("sh", "cmd", false, vec![], vec![0xc3, 0x28]) {
        ExitAction::Fail(e) => assert!(matches!(e.kind, SubprocessErrorKind::Undecodable)),
        ExitAction::Relay(_) => panic!("expected failure"),
    }
}

#[test]
fn failure_error_decodes_stderr() {
    let e = failure_error("sh", "cmd", b"no such file".to_vec());
    assert_eq!(command_text(&e).as_deref(), Some("no such file"));
}

#[test]
fn spawn_failure_keeps_cause() {
    let e = SubprocessError::spawn_failure("/missing/sh", "true", "No such file or directory".to_string());
    assert_eq!(e.shell, "/missing/sh");
    match e.kind {
        SubprocessErrorKind::Spawn { cause } => assert_eq!(cause, "No such file or directory"),
        _ => panic!("expected spawn failure"),
    }
}
