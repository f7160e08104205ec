//! The lockfile: a file in the runtime directory that holds, while a daemon
//! runs, the decimal process id of the daemon holding its exclusive lock.
//!
//! Taking the lock alternates file operations with decisions. The decisions
//! are the state machine [`LockStep`]: the caller performs the pending
//! [`LockAction`] and reports the [`LockEvent`] that came of it.
use vstd::prelude::*;
use vstd::string::StringSliceAdditionalSpecFns;

use core::marker::PhantomData;

use crate::io::io_error_text;
use crate::path::{join, join_path};
use crate::scope::{DaemonScope, ScopeKey, Scoped};
use crate::text::{
    all_digits, compose_message, decimal_text, digits_to_u32, digits_value, encode_decimal,
    is_all_digits, lemma_decimal_text_round_trip, lossy_utf8, utf8_lossy, spec_message, trim_ascii, trim_ascii_whitespace,
    trim_end, trim_start, is_digit,
};

verus! {

/// Why the contents of a lockfile are not a process id.
#[derive(Copy, Clone, PartialEq, Eq, Structural, Debug)]
pub enum PidParseError {
    /// A byte that is not an ASCII digit.
    DigitExpected,
    /// Digits only, but a number beyond `u32::MAX`.
    OutOfRange,
}

impl PidParseError {
    /// The text of the error.
    pub fn message(&self) -> (text: &'static str)
        ensures
            text@ == (match *self {
                PidParseError::DigitExpected => "digit expected"@,
                PidParseError::OutOfRange => "number too large to fit in target type"@,
            }),
    {
        match *self {
            PidParseError::DigitExpected => "digit expected",
            PidParseError::OutOfRange => "number too large to fit in target type",
        }
    }
}

/// What the (already trimmed) contents of a lockfile say: nothing for an
/// empty file, else the process id that the digits spell.
pub open spec fn spec_parse_pid(input: Seq<u8>) -> Result<Option<u32>, PidParseError> {
    if input.len() == 0 {
        Ok(None)
    } else if !all_digits(input) {
        Err(PidParseError::DigitExpected)
    } else if digits_value(input) > u32::MAX {
        Err(PidParseError::OutOfRange)
    } else {
        Ok(Some(digits_value(input) as u32))
    }
}

/// The process id recorded in a lockfile's raw contents, if it holds a valid one.
pub open spec fn found_pid(data: Seq<u8>) -> Option<u32> {
    match spec_parse_pid(trim_ascii(data)) {
        Ok(pid) => pid,
        Err(_) => None,
    }
}

/// Something worth a warning found in a lockfile that this process has
/// just locked.
#[derive(Copy, Clone, PartialEq, Eq, Structural, Debug)]
pub enum LockfileWarning {
    /// The file names another process, which no longer holds the lock.
    Stale { written_pid: u32, current_pid: u32 },
    /// The file does not hold a process id.
    Invalid { current_pid: u32, error: PidParseError },
}

/// The process id that a lockfile locked by `current` records, and the
/// warning it deserves.
pub open spec fn spec_check_pid(data: Seq<u8>, current: u32) -> (
    Option<u32>,
    Option<LockfileWarning>,
) {
    match spec_parse_pid(trim_ascii(data)) {
        Ok(Some(written)) => (
            Some(written),
            if written != current {
                Some(LockfileWarning::Stale { written_pid: written, current_pid: current })
            } else {
                None
            },
        ),
        Ok(None) => (None, None),
        Err(error) => (None, Some(LockfileWarning::Invalid { current_pid: current, error })),
    }
}

impl LockfileWarning {
    /// The text of the warning.
    pub fn message(&self) -> (text: &'static str)
        ensures
            text@ == (match *self {
                LockfileWarning::Stale { .. } => "encountered stale lockfile"@,
                LockfileWarning::Invalid { .. } => "encountered invalid lockfile"@,
            }),
    {
        match *self {
            LockfileWarning::Stale { .. } => "encountered stale lockfile",
            LockfileWarning::Invalid { .. } => "encountered invalid lockfile",
        }
    }
}

/// The outcome of reading a lockfile: its path and the process id it records.
#[derive(Debug)]
pub struct ParsedPid {
    pub path: Vec<u8>,
    pub pid: Option<u32>,
}

impl ParsedPid {
    /// Reads a process id from trimmed lockfile contents: an empty file
    /// records none; otherwise the contents must be decimal digits only
    /// (no sign, no space) of a number that fits in a `u32`.
    pub fn parse(path: Vec<u8>, input: &[u8]) -> (r: Result<ParsedPid, (Vec<u8>, PidParseError)>)
        ensures
            match spec_parse_pid(input@) {
                Ok(pid) => r matches Ok(parsed) && parsed.path == path && parsed.pid == pid,
                Err(error) => r matches Err((p, e)) && p == path && e == error,
            },
    {
        if input.len() == 0 {
            return Ok(ParsedPid { path, pid: None });
        }
        if !is_all_digits(input) {
            return Err((path, PidParseError::DigitExpected));
        }
        match digits_to_u32(input) {
            Some(pid) => Ok(ParsedPid { path, pid: Some(pid) }),
            None => Err((path, PidParseError::OutOfRange)),
        }
    }

    /// The refusal that a lock held by the recorded process is answered with.
    pub fn into_already_locked_error(self) -> (error: RawLockfileError)
        ensures
            error == (RawLockfileError::AlreadyLocked { path: self.path, pid: self.pid }),
    {
        RawLockfileError::AlreadyLocked { path: self.path, pid: self.pid }
    }
}

/// The raw contents of a lockfile, as read.
#[derive(Debug)]
pub struct UnparsedPid {
    pub path: Vec<u8>,
    pub data: Vec<u8>,
}

impl UnparsedPid {
    /// Reads the contents of a lockfile that the current process has just
    /// locked. Contents that are no process id count as none; a process id
    /// other than the current one is kept. Either case comes with a warning.
    pub fn parse_checked(self, current_pid: u32) -> (r: (ParsedPid, Option<LockfileWarning>))
        ensures
            r.0.path == self.path,
            r.0.pid == spec_check_pid(self.data@, current_pid).0,
            r.1 == spec_check_pid(self.data@, current_pid).1,
    {
        let UnparsedPid { path, data } = self;
        let trimmed = trim_ascii_whitespace(data.as_slice());
        match ParsedPid::parse(path, trimmed) {
            Ok(parsed) => {
                let warning = match parsed.pid {
                    Some(written_pid) => {
                        if written_pid != current_pid {
                            Some(LockfileWarning::Stale { written_pid, current_pid })
                        } else {
                            None
                        }
                    },
                    None => None,
                };
                (parsed, warning)
            },
            Err((path, error)) => (
                ParsedPid { path, pid: None },
                Some(LockfileWarning::Invalid { current_pid, error }),
            ),
        }
    }

    /// Reads the contents of a lockfile held by another process: whatever
    /// is not a valid process id counts as none.
    pub fn parse(self) -> (parsed: ParsedPid)
        ensures
            parsed.path == self.path,
            parsed.pid == found_pid(self.data@),
    {
        let UnparsedPid { path, data } = self;
        let trimmed = trim_ascii_whitespace(data.as_slice());
        match ParsedPid::parse(path, trimmed) {
            Ok(parsed) => parsed,
            Err((path, _)) => ParsedPid { path, pid: None },
        }
    }
}

/// The contents that the holder of a lock writes to its lockfile: its
/// process id in decimal.
pub fn pid_record(pid: u32) -> (contents: Vec<u8>)
    ensures
        contents@ == decimal_text(pid as nat),
{
    encode_decimal(pid)
}

/// The lockfile's path in a runtime directory: the file `lock` in it.
pub open spec fn spec_lock_path(rundir: Seq<u8>) -> Seq<u8> {
    join_path(rundir, seq![108u8, 111u8, 99u8, 107u8])
}

/// The lockfile's path in a runtime directory.
pub fn lock_path(rundir: &[u8]) -> (path: Vec<u8>)
    ensures
        path@ == spec_lock_path(rundir@),
{
    let name: Vec<u8> = vec![108u8, 111u8, 99u8, 107u8];
    join(rundir, name.as_slice())
}

/// A lock that this process holds: the lockfile's path and the process id
/// written to it.
#[derive(Debug)]
pub struct RawLockfile {
    pub pid: u32,
    pub path: Vec<u8>,
}

impl RawLockfile {
    /// The process id that the lockfile records.
    pub fn pid(&self) -> (pid: u32)
        ensures
            pid == self.pid,
    {
        self.pid
    }

    /// The lockfile's path.
    pub fn path(&self) -> (path: &[u8])
        ensures
            path@ == self.path@,
    {
        self.path.as_slice()
    }
}

/// Why a lock was not taken.
#[derive(Debug)]
pub enum RawLockfileError {
    /// The lockfile could not be opened, locked, read or written.
    AccessFailed { path: Vec<u8>, source: std::io::Error },
    /// Another process holds the lock; `pid` is the process id its lockfile
    /// records, if it records a valid one.
    AlreadyLocked { path: Vec<u8>, pid: Option<u32> },
}

/// The detail that ends an "already locked" message: the process id, or
/// `unknown`.
pub open spec fn pid_detail(pid: Option<u32>) -> Seq<u8> {
    match pid {
        Some(p) => decimal_text(p as nat),
        None => "unknown".spec_bytes(),
    }
}

fn pid_detail_bytes(pid: Option<u32>) -> (detail: Vec<u8>)
    ensures
        detail@ == pid_detail(pid),
{
    match pid {
        Some(p) => encode_decimal(p),
        None => {
            let mut out: Vec<u8> = Vec::new();
            crate::text::append_bytes(&mut out, "unknown".as_bytes());
            assert(out@ =~= "unknown".spec_bytes());
            out
        },
    }
}

impl RawLockfileError {
    /// The lockfile's path.
    pub open spec fn spec_path(&self) -> Seq<u8> {
        match self {
            RawLockfileError::AccessFailed { path, .. } => path@,
            RawLockfileError::AlreadyLocked { path, .. } => path@,
        }
    }

    /// The message of the error, with `source_text` as the text of the
    /// operating system's error.
    pub open spec fn spec_describe(&self, source_text: Seq<u8>) -> Seq<u8> {
        match self {
            RawLockfileError::AccessFailed { path, .. } => spec_message(
                "access failed: ".spec_bytes(),
                utf8_lossy(path@),
                source_text,
            ),
            RawLockfileError::AlreadyLocked { path, pid } => spec_message(
                "already locked: ".spec_bytes(),
                utf8_lossy(path@),
                pid_detail(*pid),
            ),
        }
    }

    /// The lockfile's path.
    pub fn path(&self) -> (path: &[u8])
        ensures
            path@ == self.spec_path(),
    {
        match self {
            RawLockfileError::AccessFailed { path, .. } => path.as_slice(),
            RawLockfileError::AlreadyLocked { path, .. } => path.as_slice(),
        }
    }

    /// The lockfile's path, taken out of the error.
    pub fn into_path(self) -> (path: Vec<u8>)
        ensures
            path@ == self.spec_path(),
    {
        match self {
            RawLockfileError::AccessFailed { path, .. } => path,
            RawLockfileError::AlreadyLocked { path, .. } => path,
        }
    }

    /// The message of the error, given the text of the operating system's
    /// error: `access failed: {path}: {source}` or
    /// `already locked: {path}: {pid or "unknown"}`, the path shown with
    /// invalid UTF-8 replaced as `Path::display` does on Unix.
    pub fn describe_with(&self, source_text: &[u8]) -> (msg: Vec<u8>)
        ensures
            msg@ == self.spec_describe(source_text@),
    {
        match self {
            RawLockfileError::AccessFailed { path, .. } => {
                let shown = lossy_utf8(path.as_slice());
                compose_message("access failed: ", shown.as_slice(), source_text)
            },
            RawLockfileError::AlreadyLocked { path, pid } => {
                let shown = lossy_utf8(path.as_slice());
                let detail = pid_detail_bytes(*pid);
                compose_message("already locked: ", shown.as_slice(), detail.as_slice())
            },
        }
    }

    /// The message of the error (see [`RawLockfileError::describe_with`]).
    pub fn describe(&self) -> (msg: Vec<u8>)
        ensures
            exists|source_text: Seq<u8>| msg@ == self.spec_describe(source_text),
            self is AlreadyLocked ==> msg@ == self.spec_describe(Seq::empty()),
    {
        match self {
            RawLockfileError::AccessFailed { source, .. } => {
                let text = io_error_text(source);
                self.describe_with(text.as_slice())
            },
            RawLockfileError::AlreadyLocked { .. } => {
                let none: Vec<u8> = Vec::new();
                self.describe_with(none.as_slice())
            },
        }
    }
}

/// A process id's record reads back as that process id, whitespace around
/// it or not.
pub proof fn lemma_pid_record_round_trip(pid: u32)
    ensures
        trim_ascii(decimal_text(pid as nat)) == decimal_text(pid as nat),
        spec_parse_pid(decimal_text(pid as nat)) == Ok::<Option<u32>, PidParseError>(Some(pid)),
        found_pid(decimal_text(pid as nat)) == Some(pid),
{
    let t = decimal_text(pid as nat);
    lemma_decimal_text_round_trip(pid as nat);
    assert(is_digit(t[0]));
    assert(is_digit(t.last()));
    assert(trim_start(t) == t);
    assert(trim_end(t) == t);
}

/// What the caller reports after performing a [`LockAction`].
#[derive(Debug)]
pub enum LockEvent {
    /// The lockfile is open (created if it was missing).
    Opened,
    /// The exclusive lock is taken; `pid` is the current process id.
    Locked { pid: u32 },
    /// Another process holds the lock.
    Busy,
    /// The lockfile's contents, read from its start.
    Read(Vec<u8>),
    /// The lockfile now holds exactly the contents asked for, synced.
    Written,
    /// The operation failed.
    Failed(std::io::Error),
}

/// What the caller is to do next.
#[derive(Debug)]
pub enum LockAction {
    /// Open the lockfile for reading and writing, creating it if missing.
    Open,
    /// Try to take the exclusive lock, without waiting.
    Lock,
    /// Read the whole lockfile from its start.
    Read,
    /// Replace the lockfile's contents with these bytes, and sync it.
    Write(Vec<u8>),
    /// Nothing: the attempt is over.
    Finish,
}

/// An attempt to take a lockfile.
#[derive(Debug)]
pub enum LockStep {
    /// The lockfile is to be opened.
    Opening { path: Vec<u8> },
    /// The open lockfile is to be locked.
    Locking { path: Vec<u8> },
    /// This process (`pid`) holds the lock; the contents are to be read.
    ReadingOwn { path: Vec<u8>, pid: u32 },
    /// This process holds the lock; its process id is to be written.
    WritingOwn { path: Vec<u8>, pid: u32 },
    /// Another process holds the lock; the contents are to be read.
    ReadingHolder { path: Vec<u8> },
    /// The lock is taken.
    Acquired(RawLockfile),
    /// The lock was not taken.
    Refused(RawLockfileError),
}

/// Whether an attempt is over.
pub open spec fn spec_finished(step: LockStep) -> bool {
    step is Acquired || step is Refused
}

/// The path of the lockfile that an attempt is about.
pub open spec fn spec_step_path(step: LockStep) -> Seq<u8> {
    match step {
        LockStep::Opening { path } => path@,
        LockStep::Locking { path } => path@,
        LockStep::ReadingOwn { path, .. } => path@,
        LockStep::WritingOwn { path, .. } => path@,
        LockStep::ReadingHolder { path } => path@,
        LockStep::Acquired(lock) => lock.path@,
        LockStep::Refused(error) => error.spec_path(),
    }
}

/// The contents that an attempt asks to write, if it is at that point: the
/// current process id in decimal.
pub open spec fn spec_write_contents(step: LockStep) -> Option<Seq<u8>> {
    match step {
        LockStep::WritingOwn { pid, .. } => Some(decimal_text(pid as nat)),
        _ => None,
    }
}

/// The next step of an attempt, given what came of the pending action. An
/// operation that fails refuses the lock with `AccessFailed`; once the lock
/// is taken the contents are read and the current process id is written;
/// when another process holds it the contents are read to name that
/// process. An event that does not answer the pending action changes nothing.
pub open spec fn spec_next(step: LockStep, event: LockEvent) -> LockStep {
    match step {
        LockStep::Opening { path } => match event {
            LockEvent::Opened => LockStep::Locking { path },
            LockEvent::Failed(source) => LockStep::Refused(
                RawLockfileError::AccessFailed { path, source },
            ),
            _ => step,
        },
        LockStep::Locking { path } => match event {
            LockEvent::Locked { pid } => LockStep::ReadingOwn { path, pid },
            LockEvent::Busy => LockStep::ReadingHolder { path },
            LockEvent::Failed(source) => LockStep::Refused(
                RawLockfileError::AccessFailed { path, source },
            ),
            _ => step,
        },
        LockStep::ReadingOwn { path, pid } => match event {
            LockEvent::Read(_) => LockStep::WritingOwn { path, pid },
            LockEvent::Failed(source) => LockStep::Refused(
                RawLockfileError::AccessFailed { path, source },
            ),
            _ => step,
        },
        LockStep::WritingOwn { path, pid } => match event {
            LockEvent::Written => LockStep::Acquired(RawLockfile { pid, path }),
            LockEvent::Failed(source) => LockStep::Refused(
                RawLockfileError::AccessFailed { path, source },
            ),
            _ => step,
        },
        LockStep::ReadingHolder { path } => match event {
            LockEvent::Read(data) => LockStep::Refused(
                RawLockfileError::AlreadyLocked { path, pid: found_pid(data@) },
            ),
            LockEvent::Failed(source) => LockStep::Refused(
                RawLockfileError::AccessFailed { path, source },
            ),
            _ => step,
        },
        LockStep::Acquired(_) => step,
        LockStep::Refused(_) => step,
    }
}

/// The warning that a step raises: only reading the contents of a lockfile
/// that this process has just locked can raise one (see [`spec_check_pid`]).
pub open spec fn spec_step_warning(step: LockStep, event: LockEvent) -> Option<LockfileWarning> {
    match step {
        LockStep::ReadingOwn { pid, .. } => match event {
            LockEvent::Read(data) => spec_check_pid(data@, pid).1,
            _ => None,
        },
        _ => None,
    }
}

impl LockStep {
    /// Starts an attempt to take the lockfile at `path`.
    pub fn start(path: Vec<u8>) -> (step: LockStep)
        ensures
            step == (LockStep::Opening { path }),
    {
        LockStep::Opening { path }
    }

    /// Whether the attempt is over.
    pub fn is_finished(&self) -> (r: bool)
        ensures
            r == spec_finished(*self),
    {
        match self {
            LockStep::Acquired(_) => true,
            LockStep::Refused(_) => true,
            _ => false,
        }
    }

    /// The lockfile's path.
    pub fn path(&self) -> (path: &[u8])
        ensures
            path@ == spec_step_path(*self),
    {
        match self {
            LockStep::Opening { path } => path.as_slice(),
            LockStep::Locking { path } => path.as_slice(),
            LockStep::ReadingOwn { path, .. } => path.as_slice(),
            LockStep::WritingOwn { path, .. } => path.as_slice(),
            LockStep::ReadingHolder { path } => path.as_slice(),
            LockStep::Acquired(lock) => lock.path(),
            LockStep::Refused(error) => error.path(),
        }
    }

    /// The action pending at this step.
    pub fn action(&self) -> (action: LockAction)
        ensures
            match *self {
                LockStep::Opening { .. } => action is Open,
                LockStep::Locking { .. } => action is Lock,
                LockStep::ReadingOwn { .. } => action is Read,
                LockStep::ReadingHolder { .. } => action is Read,
                LockStep::WritingOwn { .. } => action matches LockAction::Write(contents)
                    && Some(contents@) == spec_write_contents(*self),
                LockStep::Acquired(_) => action is Finish,
                LockStep::Refused(_) => action is Finish,
            },
    {
        match self {
            LockStep::Opening { .. } => LockAction::Open,
            LockStep::Locking { .. } => LockAction::Lock,
            LockStep::ReadingOwn { .. } => LockAction::Read,
            LockStep::ReadingHolder { .. } => LockAction::Read,
            LockStep::WritingOwn { pid, .. } => LockAction::Write(pid_record(*pid)),
            LockStep::Acquired(_) => LockAction::Finish,
            LockStep::Refused(_) => LockAction::Finish,
        }
    }

    /// Moves the attempt on by what came of the pending action, with the
    /// warning that the step raises, if any.
    pub fn step(self, event: LockEvent) -> (r: (LockStep, Option<LockfileWarning>))
        ensures
            r.0 == spec_next(self, event),
            r.1 == spec_step_warning(self, event),
    {
        match self {
            LockStep::Opening { path } => match event {
                LockEvent::Opened => (LockStep::Locking { path }, None),
                LockEvent::Failed(source) => (
                    LockStep::Refused(RawLockfileError::AccessFailed { path, source }),
                    None,
                ),
                _ => (LockStep::Opening { path }, None),
            },
            LockStep::Locking { path } => match event {
                LockEvent::Locked { pid } => (LockStep::ReadingOwn { path, pid }, None),
                LockEvent::Busy => (LockStep::ReadingHolder { path }, None),
                LockEvent::Failed(source) => (
                    LockStep::Refused(RawLockfileError::AccessFailed { path, source }),
                    None,
                ),
                _ => (LockStep::Locking { path }, None),
            },
            LockStep::ReadingOwn { path, pid } => match event {
                LockEvent::Read(data) => {
                    let (parsed, warning) = UnparsedPid { path, data }.parse_checked(pid);
                    (LockStep::WritingOwn { path: parsed.path, pid }, warning)
                },
                LockEvent::Failed(source) => (
                    LockStep::Refused(RawLockfileError::AccessFailed { path, source }),
                    None,
                ),
                _ => (LockStep::ReadingOwn { path, pid }, None),
            },
            LockStep::WritingOwn { path, pid } => match event {
                LockEvent::Written => (LockStep::Acquired(RawLockfile { pid, path }), None),
                LockEvent::Failed(source) => (
                    LockStep::Refused(RawLockfileError::AccessFailed { path, source }),
                    None,
                ),
                _ => (LockStep::WritingOwn { path, pid }, None),
            },
            LockStep::ReadingHolder { path } => match event {
                LockEvent::Read(data) => {
                    let parsed = UnparsedPid { path, data }.parse();
                    (LockStep::Refused(parsed.into_already_locked_error()), None)
                },
                LockEvent::Failed(source) => (
                    LockStep::Refused(RawLockfileError::AccessFailed { path, source }),
                    None,
                ),
                _ => (LockStep::ReadingHolder { path }, None),
            },
            LockStep::Acquired(lock) => (LockStep::Acquired(lock), None),
            LockStep::Refused(error) => (LockStep::Refused(error), None),
        }
    }

    /// The outcome of a finished attempt.
    pub fn into_outcome(self) -> (outcome: Option<Result<RawLockfile, RawLockfileError>>)
        ensures
            match self {
                LockStep::Acquired(lock) => outcome == Some(
                    Ok::<RawLockfile, RawLockfileError>(lock),
                ),
                LockStep::Refused(error) => outcome == Some(
                    Err::<RawLockfile, RawLockfileError>(error),
                ),
                _ => outcome is None,
            },
    {
        match self {
            LockStep::Acquired(lock) => Some(Ok(lock)),
            LockStep::Refused(error) => Some(Err(error)),
            _ => None,
        }
    }
}

/// Every step of an attempt is about the same lockfile.
pub proof fn lemma_step_keeps_path(step: LockStep, event: LockEvent)
    ensures
        spec_step_path(spec_next(step, event)) == spec_step_path(step),
{
}

/// A finished attempt stays as it is, whatever is reported.
pub proof fn lemma_finished_attempt_is_final(step: LockStep, event: LockEvent)
    requires
        spec_finished(step),
    ensures
        spec_next(step, event) == step,
{
}

/// An attempt in progress whose operation fails is refused with
/// `AccessFailed`, carrying the lockfile's path and the operation's error.
pub proof fn lemma_failure_refuses_access(step: LockStep, source: std::io::Error)
    requires
        !spec_finished(step),
    ensures
        spec_next(step, LockEvent::Failed(source)) matches LockStep::Refused(
            RawLockfileError::AccessFailed { path, source: s },
        ) && path@ == spec_step_path(step) && s == source,
{
}

/// Whoever takes the lock writes its own process id to the lockfile and
/// holds a lock that records that id, whatever the file held before.
pub proof fn lemma_acquire_records_own_pid(path: Vec<u8>, pid: u32, previous: Vec<u8>)
    ensures
        ({
            let locked = spec_next(spec_next(LockStep::Opening { path }, LockEvent::Opened), LockEvent::Locked { pid });
            let writing = spec_next(locked, LockEvent::Read(previous));
            &&& spec_write_contents(writing) == Some(decimal_text(pid as nat))
            &&& spec_next(writing, LockEvent::Written) == LockStep::Acquired(RawLockfile { pid, path })
        }),
{
}

/// A process refused because another holds the lock learns the holder's
/// process id from what the holder wrote.
pub proof fn lemma_refusal_names_holder(path: Vec<u8>, holder_pid: u32, contents: Vec<u8>)
    requires
        contents@ == decimal_text(holder_pid as nat),
    ensures
        spec_next(
            spec_next(spec_next(LockStep::Opening { path }, LockEvent::Opened), LockEvent::Busy),
            LockEvent::Read(contents),
        ) == LockStep::Refused(RawLockfileError::AlreadyLocked { path, pid: Some(holder_pid) }),
{
    lemma_pid_record_round_trip(holder_pid);
}

/// Why the lockfile of a scope was not taken.
#[derive(Debug)]
pub enum LockfileError {
    /// The runtime directory or the lockfile could not be used.
    AccessFailed { scope: ScopeKey, path: Vec<u8>, source: std::io::Error },
    /// Another process holds the lock; `pid` is the process id its lockfile
    /// records, if it records a valid one.
    AlreadyLocked { scope: ScopeKey, path: Vec<u8>, pid: Option<u32> },
}

/// A refusal of the lockfile of `scope`, told with its scope.
pub open spec fn spec_scoped_error(scope: ScopeKey, error: RawLockfileError) -> LockfileError {
    match error {
        RawLockfileError::AccessFailed { path, source } => LockfileError::AccessFailed {
            scope,
            path,
            source,
        },
        RawLockfileError::AlreadyLocked { path, pid } => LockfileError::AlreadyLocked {
            scope,
            path,
            pid,
        },
    }
}

impl LockfileError {
    /// The lockfile's path.
    pub open spec fn spec_path(&self) -> Seq<u8> {
        match self {
            LockfileError::AccessFailed { path, .. } => path@,
            LockfileError::AlreadyLocked { path, .. } => path@,
        }
    }

    /// The message of the error, with `source_text` as the text of the
    /// operating system's error; the scope is not part of it.
    pub open spec fn spec_describe(&self, source_text: Seq<u8>) -> Seq<u8> {
        match self {
            LockfileError::AccessFailed { path, .. } => spec_message(
                "access failed: ".spec_bytes(),
                utf8_lossy(path@),
                source_text,
            ),
            LockfileError::AlreadyLocked { path, pid, .. } => spec_message(
                "already locked: ".spec_bytes(),
                utf8_lossy(path@),
                pid_detail(*pid),
            ),
        }
    }

    /// Tells a refusal of the lockfile of `scope` with its scope.
    pub fn from_raw(scope: ScopeKey, error: RawLockfileError) -> (scoped: LockfileError)
        ensures
            scoped == spec_scoped_error(scope, error),
    {
        match error {
            RawLockfileError::AccessFailed { path, source } => LockfileError::AccessFailed {
                scope,
                path,
                source,
            },
            RawLockfileError::AlreadyLocked { path, pid } => LockfileError::AlreadyLocked {
                scope,
                path,
                pid,
            },
        }
    }

    /// The refusal when the runtime directory of `scope` at `rundir` could not
    /// be made ready: access to the lockfile that would lie in it failed.
    pub fn rundir_failed(scope: ScopeKey, rundir: &[u8], source: std::io::Error) -> (error:
        LockfileError)
        ensures
            error matches LockfileError::AccessFailed { scope: s, path, source: e } && s == scope
                && path@ == spec_lock_path(rundir@) && e == source,
    {
        LockfileError::AccessFailed { scope, path: lock_path(rundir), source }
    }

    /// The lockfile's path.
    pub fn path(&self) -> (path: &[u8])
        ensures
            path@ == self.spec_path(),
    {
        match self {
            LockfileError::AccessFailed { path, .. } => path.as_slice(),
            LockfileError::AlreadyLocked { path, .. } => path.as_slice(),
        }
    }

    /// The lockfile's path, taken out of the error.
    pub fn into_path(self) -> (path: Vec<u8>)
        ensures
            path@ == self.spec_path(),
    {
        match self {
            LockfileError::AccessFailed { path, .. } => path,
            LockfileError::AlreadyLocked { path, .. } => path,
        }
    }

    /// The message of the error, given the text of the operating system's
    /// error: `access failed: {path}: {source}` or
    /// `already locked: {path}: {pid or "unknown"}`, the path shown with
    /// invalid UTF-8 replaced as `Path::display` does on Unix.
    pub fn describe_with(&self, source_text: &[u8]) -> (msg: Vec<u8>)
        ensures
            msg@ == self.spec_describe(source_text@),
    {
        match self {
            LockfileError::AccessFailed { path, .. } => {
                let shown = lossy_utf8(path.as_slice());
                compose_message("access failed: ", shown.as_slice(), source_text)
            },
            LockfileError::AlreadyLocked { path, pid, .. } => {
                let shown = lossy_utf8(path.as_slice());
                let detail = pid_detail_bytes(*pid);
                compose_message("already locked: ", shown.as_slice(), detail.as_slice())
            },
        }
    }

    /// The message of the error (see [`LockfileError::describe_with`]).
    pub fn describe(&self) -> (msg: Vec<u8>)
        ensures
            exists|source_text: Seq<u8>| msg@ == self.spec_describe(source_text),
            self is AlreadyLocked ==> msg@ == self.spec_describe(Seq::empty()),
    {
        match self {
            LockfileError::AccessFailed { source, .. } => {
                let text = io_error_text(source);
                self.describe_with(text.as_slice())
            },
            LockfileError::AlreadyLocked { .. } => {
                let none: Vec<u8> = Vec::new();
                self.describe_with(none.as_slice())
            },
        }
    }
}

impl Scoped for LockfileError {
    open spec fn spec_scope(&self) -> ScopeKey {
        match self {
            LockfileError::AccessFailed { scope, .. } => *scope,
            LockfileError::AlreadyLocked { scope, .. } => *scope,
        }
    }

    fn scope(&self) -> (key: ScopeKey) {
        match self {
            LockfileError::AccessFailed { scope, .. } => *scope,
            LockfileError::AlreadyLocked { scope, .. } => *scope,
        }
    }
}

/// The lock of the daemon of scope `T`, taken through the lockfile in the
/// scope's runtime directory.
#[derive(Debug)]
pub struct Lockfile<T> {
    raw: RawLockfile,
    _scope: PhantomData<T>,
}

impl<T: DaemonScope> Lockfile<T> {
    /// The process id that the lockfile records.
    pub closed spec fn spec_pid(&self) -> u32 {
        self.raw.pid
    }

    /// The lockfile's path.
    pub closed spec fn spec_path(&self) -> Seq<u8> {
        self.raw.path@
    }

    /// Starts taking the lockfile of scope `T`, given what came of finding
    /// the scope's runtime directory: the attempt on the file `lock` in it,
    /// or, where no directory was found, the refusal `AccessFailed` for
    /// that file, with no attempt made.
    pub fn begin(rundir: Result<Vec<u8>, (Vec<u8>, std::io::Error)>) -> (r: Result<
        LockStep,
        LockfileError,
    >)
        ensures
            match rundir {
                Ok(dir) => r matches Ok(LockStep::Opening { path }) && path@ == spec_lock_path(
                    dir@,
                ),
                Err((dir, source)) => r matches Err(
                    LockfileError::AccessFailed { scope, path, source: s },
                ) && scope == T::spec_key() && path@ == spec_lock_path(dir@) && s == source,
            },
    {
        match rundir {
            Ok(dir) => Ok(LockStep::start(lock_path(dir.as_slice()))),
            Err((dir, source)) => Err(LockfileError::rundir_failed(T::key(), dir.as_slice(), source)),
        }
    }

    /// The outcome of taking the lockfile of scope `T`: the lock, or the
    /// refusal told with the scope.
    pub fn from_outcome(outcome: Result<RawLockfile, RawLockfileError>) -> (r: Result<
        Lockfile<T>,
        LockfileError,
    >)
        ensures
            match outcome {
                Ok(raw) => r matches Ok(lock) && lock.spec_pid() == raw.pid && lock.spec_path()
                    == raw.path@,
                Err(error) => r matches Err(e) && e == spec_scoped_error(T::spec_key(), error),
            },
    {
        match outcome {
            Ok(raw) => Ok(Lockfile { raw, _scope: PhantomData }),
            Err(error) => Err(LockfileError::from_raw(T::key(), error)),
        }
    }

    /// The process id that the lockfile records.
    pub fn pid(&self) -> (pid: u32)
        ensures
            pid == self.spec_pid(),
    {
        self.raw.pid
    }

    /// The lockfile's path.
    pub fn path(&self) -> (path: &[u8])
        ensures
            path@ == self.spec_path(),
    {
        self.raw.path()
    }
}

impl<T: DaemonScope> Scoped for Lockfile<T> {
    open spec fn spec_scope(&self) -> ScopeKey {
        T::spec_key()
    }

    fn scope(&self) -> (key: ScopeKey) {
        T::key()
    }
}

/// The step that an attempt reaches after the events, one by one.
pub open spec fn spec_run(step: LockStep, events: Seq<LockEvent>) -> LockStep
    decreases events.len(),
{
    if events.len() == 0 {
        step
    } else {
        spec_run(spec_next(step, events[0]), events.drop_first())
    }
}

/// However an attempt goes, it stays about the lockfile it started with.
pub proof fn lemma_run_keeps_path(step: LockStep, events: Seq<LockEvent>)
    ensures
        spec_step_path(spec_run(step, events)) == spec_step_path(step),
    decreases events.len(),
{
    if events.len() > 0 {
        lemma_step_keeps_path(step, events[0]);
        lemma_run_keeps_path(spec_next(step, events[0]), events.drop_first());
    }
}

/// Taking the lockfile of scope `T` in the runtime directory `rundir` (an
/// attempt started by [`Lockfile::begin`]) ends, whatever happens, with a
/// lock on `rundir`/`lock`, or with a refusal told with scope `T`, about
/// `rundir`/`lock`, of the same kind and with the same process id or
/// operating-system error.
pub proof fn lemma_scoped_attempt_reports_scope_and_lock_path<T: DaemonScope>(
    rundir: Seq<u8>,
    path: Vec<u8>,
    events: Seq<LockEvent>,
)
    requires
        path@ == spec_lock_path(rundir),
    ensures
        match spec_run(LockStep::Opening { path }, events) {
            LockStep::Acquired(raw) => raw.path@ == spec_lock_path(rundir),
            LockStep::Refused(error) => {
                let scoped = spec_scoped_error(T::spec_key(), error);
                &&& scoped.spec_scope() == T::spec_key()
                &&& scoped.spec_path() == spec_lock_path(rundir)
                &&& match error {
                    RawLockfileError::AlreadyLocked { pid, .. } => scoped matches LockfileError::AlreadyLocked {
                        pid: p,
                        ..
                    } && p == pid,
                    RawLockfileError::AccessFailed { source, .. } => scoped matches LockfileError::AccessFailed {
                        source: e,
                        ..
                    } && e == source,
                }
            },
            _ => true,
        },
{
    lemma_run_keeps_path(LockStep::Opening { path }, events);
}

/// Reading a lockfile that this process has just locked: contents that are
/// empty (or only whitespace), as on a first start, raise no warning and
/// record no pid; a warning comes only for a recorded pid other than the
/// current one (`Stale`) or for contents that are no pid (`Invalid`), and a
/// pid is kept exactly when the contents are digits of a `u32`.
pub proof fn lemma_checked_pid_warnings(data: Seq<u8>, current: u32)
    ensures
        ({
            let t = trim_ascii(data);
            let valid = t.len() > 0 && all_digits(t) && digits_value(t) <= u32::MAX;
            let (pid, warning) = spec_check_pid(data, current);
            &&& t.len() == 0 ==> pid is None && warning is None
            &&& valid ==> pid == Some(digits_value(t) as u32)
            &&& !valid ==> pid is None
            &&& (warning is Some && warning.unwrap() is Stale) ==> valid
                && warning.unwrap()->written_pid == digits_value(t)
                && warning.unwrap()->written_pid != current
                && warning.unwrap()->Stale_current_pid == current
            &&& (warning is Some && warning.unwrap() is Invalid) ==> t.len() > 0 && !valid
                && warning.unwrap()->Invalid_current_pid == current
            &&& warning is None ==> t.len() == 0 || (valid && digits_value(t) == current)
            &&& (valid && digits_value(t) != current) ==> warning is Some
            &&& (t.len() > 0 && !valid) ==> warning is Some
        }),
{
}

/// What the contents of a lockfile say: nothing exactly when they are
/// empty; a process id exactly when they are decimal digits of a `u32`,
/// namely the number they spell; `DigitExpected` exactly when a byte is no
/// digit; `OutOfRange` exactly when the digits spell more than `u32::MAX`.
pub proof fn lemma_parse_pid_cases(input: Seq<u8>)
    ensures
        (spec_parse_pid(input) == Ok::<Option<u32>, PidParseError>(None)) == (input.len() == 0),
        (spec_parse_pid(input) is Ok && spec_parse_pid(input).unwrap() is Some) == (input.len()
            > 0 && all_digits(input) && digits_value(input) <= u32::MAX),
        (spec_parse_pid(input) is Ok && spec_parse_pid(input).unwrap() is Some) ==> digits_value(
            input,
        ) == spec_parse_pid(input).unwrap().unwrap(),
        (spec_parse_pid(input) == Err::<Option<u32>, PidParseError>(PidParseError::DigitExpected))
            == (input.len() > 0 && !all_digits(input)),
        (spec_parse_pid(input) == Err::<Option<u32>, PidParseError>(PidParseError::OutOfRange)) == (
        input.len() > 0 && all_digits(input) && digits_value(input) > u32::MAX),
{
}

} // verus!
