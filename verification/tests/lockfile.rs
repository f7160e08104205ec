use daemonbit::capture::CapturedTracing;
use daemonbit::lockfile::{
    lock_path, pid_record, LockAction, LockEvent, LockStep, Lockfile, LockfileError,
    LockfileWarning, ParsedPid, PidParseError, RawLockfile, RawLockfileError, UnparsedPid,
};
use daemonbit::{Global, Local, ScopeKey, Scoped};
use std::io;

const CURRENT_PID: u32 = 123;
const FOREIGN_PID: u32 = 456;
const INVALID_DATA: &[u8] = b"invalid";

fn pid_bytes(pid: u32) -> Vec<u8> {
    pid.to_string().as_bytes().to_vec()
}

fn unparsed(data: Vec<u8>) -> UnparsedPid {
    UnparsedPid { path: Vec::new(), data }
}

fn parsed(pid: Option<u32>) -> ParsedPid {
    ParsedPid { path: Vec::new(), pid }
}

/// Reads as the current process and keeps the warning text as the log.
fn check_capturing(data: Vec<u8>, current: u32) -> CapturedTracing<ParsedPid> {
    let (parsed, warning) = unparsed(data).parse_checked(current);
    let log = match warning {
        Some(w) => w.message().as_bytes().to_vec(),
        None => Vec::new(),
    };
    CapturedTracing::new(parsed, log)
}

#[test]
fn parse_empty() {
    let result = ParsedPid::parse(Vec::new(), b"");
    assert!(matches!(result, Ok(ParsedPid { pid: None, .. })));
}

#[test]
fn parse_invalid_utf8() {
    let result = ParsedPid::parse(Vec::new(), b"\xff");
    assert!(matches!(result, Err((_, PidParseError::DigitExpected))));
}

#[test]
fn parse_garbage() {
    let result = ParsedPid::parse(Vec::new(), b"123 pid");
    assert!(matches!(result, Err((_, PidParseError::DigitExpected))));
}

#[test]
fn parse_negative_number() {
    let result = ParsedPid::parse(Vec::new(), b"-123");
    assert!(matches!(result, Err((_, PidParseError::DigitExpected))));
}

#[test]
fn parse_zero() {
    let result = ParsedPid::parse(Vec::new(), b"0");
    assert!(matches!(result, Ok(ParsedPid { pid: Some(0), .. })));
}

#[test]
fn parse_positive_number_signed() {
    let result = ParsedPid::parse(Vec::new(), b"+123");
    assert!(matches!(result, Err((_, PidParseError::DigitExpected))));
}

#[test]
fn parse_positive_number_unsigned() {
    let result = ParsedPid::parse(Vec::new(), b"123");
    assert!(matches!(result, Ok(ParsedPid { pid: Some(123), .. })));
}

#[test]
fn parse_u32_max_and_beyond() {
    let max = ParsedPid::parse(Vec::new(), b"4294967295");
    assert!(matches!(max, Ok(ParsedPid { pid: Some(4294967295), .. })));
    let beyond = ParsedPid::parse(Vec::new(), b"4294967296");
    assert!(matches!(beyond, Err((_, PidParseError::OutOfRange))));
    let long = ParsedPid::parse(Vec::new(), b"000000000000000000000000042");
    assert!(matches!(long, Ok(ParsedPid { pid: Some(42), .. })));
}

#[test]
fn parse_keeps_path() {
    let result = ParsedPid::parse(b"/run/d/lock".to_vec(), b"x");
    match result {
        Err((path, _)) => assert_eq!(path, b"/run/d/lock".to_vec()),
        Ok(_) => panic!("garbage parsed"),
    }
}

#[test]
fn try_parse_different_pid_warns_stale() {
    let parsed = check_capturing(pid_bytes(FOREIGN_PID), CURRENT_PID);
    assert!(parsed.logged("encountered stale lockfile"));
    assert_eq!(parsed.result().pid, Some(FOREIGN_PID));
}

#[test]
fn try_parse_same_pid_do_not_warn() {
    let parsed = check_capturing(pid_bytes(CURRENT_PID), CURRENT_PID);
    assert!(!parsed.logged("encountered stale lockfile"));
    assert_eq!(parsed.result().pid, Some(CURRENT_PID));
}

#[test]
fn try_parse_empty_do_not_warn() {
    let parsed = check_capturing(Vec::new(), CURRENT_PID);
    assert!(!parsed.logged("encountered stale lockfile"));
    assert_eq!(parsed.result().pid, None);
}

#[test]
fn try_parse_unparseable_pid_warns_invalid() {
    let parsed = check_capturing(INVALID_DATA.to_vec(), CURRENT_PID);
    assert!(parsed.logged("encountered invalid lockfile"));
    assert_eq!(parsed.result().pid, None);
}

#[test]
fn parse_checked_trims_whitespace_and_reports_warning() {
    let (parsed, warning) = unparsed(b" \t456\r\n".to_vec()).parse_checked(CURRENT_PID);
    assert_eq!(parsed.pid, Some(456));
    assert_eq!(
        warning,
        Some(LockfileWarning::Stale { written_pid: 456, current_pid: CURRENT_PID })
    );
    let (parsed, warning) = unparsed(b"12a".to_vec()).parse_checked(7);
    assert_eq!(parsed.pid, None);
    assert_eq!(
        warning,
        Some(LockfileWarning::Invalid { current_pid: 7, error: PidParseError::DigitExpected })
    );
}

#[test]
fn parse_of_foreign_lockfile_ignores_garbage() {
    assert_eq!(unparsed(b"  789\n".to_vec()).parse().pid, Some(789));
    assert_eq!(unparsed(INVALID_DATA.to_vec()).parse().pid, None);
    assert_eq!(unparsed(b"99999999999".to_vec()).parse().pid, None);
}

#[test]
fn into_already_locked_error_with_different_pid() {
    let error = parsed(Some(FOREIGN_PID)).into_already_locked_error();
    assert!(matches!(
        error,
        RawLockfileError::AlreadyLocked { pid: Some(FOREIGN_PID), .. }
    ));
}

#[test]
fn into_already_locked_error_with_none() {
    let error = parsed(None).into_already_locked_error();
    assert!(matches!(error, RawLockfileError::AlreadyLocked { pid: None, .. }));
}

fn drive(step: LockStep, event: LockEvent) -> LockStep {
    step.step(event).0
}

#[test]
fn lockfile_open_writes_pid() {
    let step = LockStep::start(Vec::new());
    assert!(matches!(step.action(), LockAction::Open));
    let step = drive(step, LockEvent::Opened);
    assert!(matches!(step.action(), LockAction::Lock));
    let step = drive(step, LockEvent::Locked { pid: CURRENT_PID });
    assert!(matches!(step.action(), LockAction::Read));
    let (step, warning) = step.step(LockEvent::Read(pid_bytes(FOREIGN_PID)));
    assert_eq!(
        warning,
        Some(LockfileWarning::Stale { written_pid: FOREIGN_PID, current_pid: CURRENT_PID })
    );
    match step.action() {
        LockAction::Write(contents) => assert_eq!(contents, pid_bytes(CURRENT_PID)),
        _ => panic!("expected a write"),
    }
    let step = drive(step, LockEvent::Written);
    assert!(step.is_finished());
    let lockfile = step.into_outcome().unwrap().unwrap();
    assert_eq!(lockfile.pid, CURRENT_PID);
    assert_eq!(lockfile.pid(), CURRENT_PID);
}

#[test]
fn lockfile_open_not_found() {
    let step = LockStep::start(Vec::new());
    let step = drive(
        step,
        LockEvent::Failed(io::Error::new(io::ErrorKind::NotFound, "no such file or directory")),
    );
    let result = step.into_outcome().unwrap();
    assert!(matches!(result, Err(RawLockfileError::AccessFailed { .. })));
}

#[test]
fn lockfile_open_already_locked() {
    let step = LockStep::start(Vec::new());
    let step = drive(step, LockEvent::Opened);
    let step = drive(step, LockEvent::Busy);
    assert!(matches!(step.action(), LockAction::Read));
    let step = drive(step, LockEvent::Read(pid_bytes(FOREIGN_PID)));
    let result = step.into_outcome().unwrap();
    assert!(matches!(
        result,
        Err(RawLockfileError::AlreadyLocked { pid: Some(FOREIGN_PID), .. })
    ));
}

#[test]
fn lockfile_open_other_lock_error() {
    let step = LockStep::start(Vec::new());
    let step = drive(step, LockEvent::Opened);
    let step = drive(step, LockEvent::Failed(io::Error::from_raw_os_error(13)));
    let result = step.into_outcome().unwrap();
    assert!(matches!(result, Err(RawLockfileError::AccessFailed { .. })));
}

#[test]
fn failed_write_refuses_with_path() {
    let step = LockStep::start(b"/run/d/lock".to_vec());
    let step = drive(step, LockEvent::Opened);
    let step = drive(step, LockEvent::Locked { pid: 1 });
    let step = drive(step, LockEvent::Read(Vec::new()));
    let step = drive(step, LockEvent::Failed(io::Error::new(io::ErrorKind::Other, "disk full")));
    assert_eq!(step.path(), b"/run/d/lock");
    match step.into_outcome() {
        Some(Err(error)) => {
            assert!(matches!(error, RawLockfileError::AccessFailed { .. }));
            assert_eq!(error.into_path(), b"/run/d/lock".to_vec());
        },
        _ => panic!("expected a refusal"),
    }
}

#[test]
fn unexpected_event_changes_nothing() {
    let step = LockStep::start(b"p".to_vec());
    let step = drive(step, LockEvent::Written);
    assert!(matches!(step.action(), LockAction::Open));
    assert!(step.into_outcome().is_none());
}

#[test]
fn holder_record_is_read_back_by_contender() {
    let record = pid_record(4242);
    assert_eq!(record, b"4242".to_vec());
    let step = drive(drive(LockStep::start(Vec::new()), LockEvent::Opened), LockEvent::Busy);
    let result = drive(step, LockEvent::Read(record)).into_outcome().unwrap();
    assert!(matches!(result, Err(RawLockfileError::AlreadyLocked { pid: Some(4242), .. })));
}

#[test]
fn raw_error_messages() {
    let locked = RawLockfileError::AlreadyLocked { path: b"/run/d/lock".to_vec(), pid: Some(7) };
    assert_eq!(locked.describe(), b"already locked: /run/d/lock: 7".to_vec());
    let unknown = RawLockfileError::AlreadyLocked { path: b"/l".to_vec(), pid: None };
    assert_eq!(unknown.describe(), b"already locked: /l: unknown".to_vec());
    let failed = RawLockfileError::AccessFailed {
        path: b"/l".to_vec(),
        source: io::Error::new(io::ErrorKind::Other, "boom"),
    };
    assert_eq!(failed.describe(), b"access failed: /l: boom".to_vec());
    assert_eq!(failed.describe_with(b"x"), b"access failed: /l: x".to_vec());
    assert_eq!(failed.path(), b"/l");
}

#[test]
fn lock_path_is_inside_rundir() {
    assert_eq!(lock_path(b"/run/daemon"), b"/run/daemon/lock".to_vec());
    assert_eq!(lock_path(b"/run/daemon/"), b"/run/daemon/lock".to_vec());
}

#[test]
fn scoped_lockfile_outcomes() {
    let ok = Lockfile::<Global>::from_outcome(Ok(RawLockfile { pid: 5, path: b"/x".to_vec() }));
    let lock = ok.ok().unwrap();
    assert_eq!(lock.pid(), 5);
    assert_eq!(lock.path(), b"/x");
    assert_eq!(lock.scope(), ScopeKey::Global);
    let err = Lockfile::<Local>::from_outcome(Err(RawLockfileError::AlreadyLocked {
        path: b"/y".to_vec(),
        pid: Some(9),
    }));
    match err {
        Err(e) => {
            assert_eq!(e.scope(), ScopeKey::Local);
            assert!(matches!(e, LockfileError::AlreadyLocked { pid: Some(9), .. }));
            assert_eq!(e.describe(), b"already locked: /y: 9".to_vec());
            assert_eq!(e.into_path(), b"/y".to_vec());
        },
        Ok(_) => panic!("expected a refusal"),
    }
    let e = LockfileError::rundir_failed(
        ScopeKey::Local,
        b"/tmp/d-1000",
        io::Error::new(io::ErrorKind::PermissionDenied, "denied"),
    );
    assert_eq!(e.path(), b"/tmp/d-1000/lock");
    assert_eq!(e.scope(), ScopeKey::Local);
    assert_eq!(e.describe(), b"access failed: /tmp/d-1000/lock: denied".to_vec());
}

#[test]
fn messages_show_invalid_utf8_as_replacement() {
    let locked = RawLockfileError::AlreadyLocked { path: b"/run/\xffd/lock".to_vec(), pid: None };
    assert_eq!(
        locked.describe(),
        "already locked: /run/\u{fffd}d/lock: unknown".as_bytes().to_vec()
    );
    let scoped = LockfileError::from_raw(ScopeKey::Global, locked);
    assert_eq!(
        scoped.describe(),
        "already locked: /run/\u{fffd}d/lock: unknown".as_bytes().to_vec()
    );
    assert_eq!(scoped.path(), b"/run/\xffd/lock");
}

#[test]
fn begin_takes_the_lock_in_the_rundir() {
    match Lockfile::<Local>::begin(Ok(b"/run/user/1000/d".to_vec())) {
        Ok(step) => {
            assert_eq!(step.path(), b"/run/user/1000/d/lock");
            assert!(matches!(step.action(), LockAction::Open));
        },
        Err(_) => panic!("a found directory was refused"),
    }
    let refused = Lockfile::<Global>::begin(Err((
        b"/tmp/d".to_vec(),
        io::Error::new(io::ErrorKind::PermissionDenied, "denied"),
    )));
    match refused {
        Err(e) => {
            assert!(matches!(e, LockfileError::AccessFailed { scope: ScopeKey::Global, .. }));
            assert_eq!(e.path(), b"/tmp/d/lock");
        },
        Ok(_) => panic!("an attempt started without a directory"),
    }
}

#[test]
fn pid_parse_error_texts() {
    assert_eq!(PidParseError::DigitExpected.message(), "digit expected");
    assert_eq!(
        PidParseError::OutOfRange.message(),
        "number too large to fit in target type"
    );
}
