//! The two entry points, fed with what a shell reports of a command.
use babash::{call, ensure_call, get_response, CallError, ProcessOutput};
use std::io;

fn ended(code: Option<i32>, stdout: &[u8], stderr: &[u8]) -> io::Result<ProcessOutput> {
    Ok(ProcessOutput { code, stdout: stdout.to_vec(), stderr: stderr.to_vec() })
}

fn posix_unknown_command() -> io::Result<ProcessOutput> {
    ended(Some(127), b"", b"sh: 1: unknown-command: not found\n")
}

fn windows_unknown_command() -> io::Result<ProcessOutput> {
    ended(
        Some(1),
        b"",
        b"'unknown-command' is not recognized as an internal or external command,\r\noperable program or batch file.\r\n",
    )
}

fn no_shell() -> io::Result<ProcessOutput> {
    Err(io::Error::new(io::ErrorKind::NotFound, "no such shell"))
}

#[test]
fn test_error_status() {
    let command = "unknown-command".to_string();
    assert!(ensure_call(&command, posix_unknown_command()).is_err());
}

#[test]
fn test_success_status() {
    assert!(ensure_call("ls", ended(Some(0), b"Cargo.toml\nsrc\ntests\n", b"")).is_ok());
}

#[test]
fn test_error() {
    let r = call("unknown-command", posix_unknown_command()).unwrap();
    assert!(!r.success);
    assert!(r.stderr.contains("not found"));
}

#[test]
fn lib_test_success_status() {
    let listing = b" Volume in drive C has no label.\r\n Directory of C:\\work\r\n";
    assert!(ensure_call("dir", ended(Some(0), listing, b"")).is_ok());
}

#[test]
fn lib_test_error() {
    let r = call("unknown-command", windows_unknown_command()).unwrap();
    assert!(!r.success);
    assert!(r.stderr.contains("not recognized"));
}

#[test]
fn unknown_command_keeps_its_code_and_message() {
    let r = call("unknown-command", posix_unknown_command()).unwrap();
    assert_eq!(r.command, "unknown-command");
    assert_eq!(r.code, Some(127));
    assert_eq!(r.stdout, "");
    assert_eq!(r.stderr, "sh: 1: unknown-command: not found");
}

#[test]
fn exit_zero_passes_both_entry_points() {
    let seen = call("true", ended(Some(0), b"", b"")).unwrap();
    assert!(seen.success);
    let ensured = ensure_call("true", ended(Some(0), b"", b"")).unwrap();
    assert!(ensured.success);
    assert_eq!(ensured, seen);
}

#[test]
fn exit_three_is_reported_by_call() {
    let r = call("exit 3", ended(Some(3), b"", b"")).unwrap();
    assert!(!r.success);
    assert_eq!(r.code, Some(3));
    assert_eq!(r.command, "exit 3");
    assert_eq!(r.stdout, "");
    assert_eq!(r.stderr, "");
}

#[test]
fn exit_three_is_an_error_of_ensure_call() {
    match ensure_call("exit 3", ended(Some(3), b"", b"")) {
        Err(CallError::Unsuccessful(r)) => {
            assert_eq!(r.code, Some(3));
            let message = r.failure_message();
            assert!(message.contains("3"));
            assert!(message.contains("exit 3"));
        }
        other => panic!("expected a refused command, got {:?}", other),
    }
}

#[test]
fn a_signal_is_no_success() {
    let r = call("kill -9 $$", ended(None, b"", b"")).unwrap();
    assert!(!r.success);
    assert_eq!(r.code, None);
    assert!(matches!(
        ensure_call("kill -9 $$", ended(None, b"", b"")),
        Err(CallError::Unsuccessful(_))
    ));
}

#[test]
fn success_of_call_is_ok_of_ensure_call() {
    for code in [Some(0), Some(1), Some(3), Some(127), Some(-1), None] {
        let seen = call("cmd", ended(code, b"out", b"err")).unwrap();
        let ensured = ensure_call("cmd", ended(code, b"out", b"err"));
        assert_eq!(seen.success, ensured.is_ok());
        assert_eq!(seen.success, code == Some(0));
    }
}

#[test]
fn the_same_output_gives_the_same_response() {
    let first = call("echo hi", ended(Some(0), b"hi\n", b"")).unwrap();
    let second = call("echo hi", ended(Some(0), b"hi\n", b"")).unwrap();
    assert_eq!(first, second);
    assert_eq!(first.stdout, "hi");
}

#[test]
fn get_response_is_what_call_returns() {
    let a = get_response("echo hi", ended(Some(0), b" hi \n", b"warn\n")).unwrap();
    let b = call("echo hi", ended(Some(0), b" hi \n", b"warn\n")).unwrap();
    assert_eq!(a, b);
    assert_eq!(a.stdout, "hi");
    assert_eq!(a.stderr, "warn");
}

#[test]
fn a_failed_start_is_handed_on_by_call() {
    let e = call("ls", no_shell()).unwrap_err();
    assert_eq!(e.kind(), io::ErrorKind::NotFound);
    assert_eq!(e.to_string(), "no such shell");
    let e = get_response("ls", no_shell()).unwrap_err();
    assert_eq!(e.kind(), io::ErrorKind::NotFound);
}

#[test]
fn a_failed_start_is_its_own_kind_of_error() {
    match ensure_call("ls", no_shell()) {
        Err(CallError::Spawn(e)) => {
            assert_eq!(e.kind(), io::ErrorKind::NotFound);
            assert_eq!(e.to_string(), "no such shell");
        }
        other => panic!("expected a failed start, got {:?}", other),
    }
}

#[test]
fn bytes_that_are_no_text_do_not_fail() {
    let r = call("head -c 3 /dev/urandom", ended(Some(0), &[0xff, 0xfe, 0x41], &[0x80])).unwrap();
    assert!(r.success);
    assert_eq!(r.stdout, "\u{FFFD}\u{FFFD}A");
    assert_eq!(r.stderr, "\u{FFFD}");
    assert!(ensure_call("head -c 3 /dev/urandom", ended(Some(0), &[0xff, 0xfe, 0x41], &[0x80])).is_ok());
    assert!(matches!(
        ensure_call("false", ended(Some(1), &[0xc3], &[0xe2, 0x82])),
        Err(CallError::Unsuccessful(_))
    ));
}
