//! The daemon lock: the platform's lock (the lockfile on Unix, the named
//! mutex on Windows) seen through one error type.
use vstd::prelude::*;
use vstd::string::StringSliceAdditionalSpecFns;
use vstd::utf8::encode_utf8;


use crate::io::io_error_text;
use crate::lockfile::{pid_detail, Lockfile, LockfileError};
use crate::mutex::MutexError;
use crate::scope::{scope_text, DaemonScope, ScopeKey, Scoped};
use crate::text::{
    append_bytes, colon_space, compose_message, encode_decimal, lossy_utf8, os_text, os_text_lossy,
    spec_message, utf8_lossy,
};

verus! {

/// Why the daemon lock of a scope was not taken.
#[derive(Debug)]
pub enum DaemonLockError {
    /// The lock could not be used.
    AccessFailed { scope: ScopeKey, path: Vec<u8>, source: std::io::Error },
    /// Another process holds the lock, with its process id where known.
    AlreadyLocked { scope: ScopeKey, path: Vec<u8>, pid: Option<u32> },
}

/// The platform whose rule shows a path in messages: on Unix invalid UTF-8
/// is replaced (`Path::display`); on Windows the path's encoded bytes are
/// WTF-8 and each lone surrogate is replaced (`OsStr::to_string_lossy`).
#[derive(Copy, Clone, PartialEq, Eq, Structural, Debug)]
pub enum Platform {
    Unix,
    Windows,
}

/// How a path with these encoded bytes is shown on a platform.
pub open spec fn spec_shown_path(platform: Platform, path: Seq<u8>) -> Seq<u8> {
    match platform {
        Platform::Unix => utf8_lossy(path),
        Platform::Windows => os_text_lossy(path),
    }
}

/// `{scope}: {path}`: the subject of a daemon lock message, the path shown
/// by the platform's rule.
pub open spec fn spec_scoped_subject(platform: Platform, scope: ScopeKey, path: Seq<u8>) -> Seq<u8> {
    encode_utf8(scope_text(scope)) + colon_space() + spec_shown_path(platform, path)
}

impl DaemonLockError {
    /// The lock's path (the mutex's name for a named mutex).
    pub open spec fn spec_path(&self) -> Seq<u8> {
        match self {
            DaemonLockError::AccessFailed { path, .. } => path@,
            DaemonLockError::AlreadyLocked { path, .. } => path@,
        }
    }

    /// The message of the error on `platform`, with `source_text` as the
    /// text of the operating system's error.
    pub open spec fn spec_describe(&self, platform: Platform, source_text: Seq<u8>) -> Seq<u8> {
        match self {
            DaemonLockError::AccessFailed { scope, path, .. } => spec_message(
                "access failed: ".spec_bytes(),
                spec_scoped_subject(platform, *scope, path@),
                source_text,
            ),
            DaemonLockError::AlreadyLocked { scope, path, pid } => spec_message(
                "already locked: ".spec_bytes(),
                spec_scoped_subject(platform, *scope, path@),
                pid_detail(*pid),
            ),
        }
    }

    /// The same refusal, from the lockfile.
    pub fn from_lockfile_error(error: LockfileError) -> (e: DaemonLockError)
        ensures
            match error {
                LockfileError::AccessFailed { scope, path, source } => e
                    == (DaemonLockError::AccessFailed { scope, path, source }),
                LockfileError::AlreadyLocked { scope, path, pid } => e
                    == (DaemonLockError::AlreadyLocked { scope, path, pid }),
            },
    {
        match error {
            LockfileError::AccessFailed { scope, path, source } => DaemonLockError::AccessFailed {
                scope,
                path,
                source,
            },
            LockfileError::AlreadyLocked { scope, path, pid } => DaemonLockError::AlreadyLocked {
                scope,
                path,
                pid,
            },
        }
    }

    /// The same refusal, from the named mutex: its name stands for the path,
    /// and the holder's process id is not known.
    pub fn from_mutex_error(error: MutexError) -> (e: DaemonLockError)
        ensures
            match error {
                MutexError::AccessFailed { scope, name, source } => e
                    == (DaemonLockError::AccessFailed { scope, path: name, source }),
                MutexError::AlreadyLocked { scope, name } => e == (DaemonLockError::AlreadyLocked {
                    scope,
                    path: name,
                    pid: None,
                }),
            },
    {
        match error {
            MutexError::AccessFailed { scope, name, source } => DaemonLockError::AccessFailed {
                scope,
                path: name,
                source,
            },
            MutexError::AlreadyLocked { scope, name } => DaemonLockError::AlreadyLocked {
                scope,
                path: name,
                pid: None,
            },
        }
    }

    /// The lock's path.
    pub fn path(&self) -> (path: &[u8])
        ensures
            path@ == self.spec_path(),
    {
        match self {
            DaemonLockError::AccessFailed { path, .. } => path.as_slice(),
            DaemonLockError::AlreadyLocked { path, .. } => path.as_slice(),
        }
    }

    /// The message of the error, given the text of the operating system's
    /// error: `access failed: {scope}: {path}: {source}` or
    /// `already locked: {scope}: {path}: {pid or "unknown"}`, the path shown
    /// by the rule of `platform`.
    pub fn describe_with(&self, platform: Platform, source_text: &[u8]) -> (msg: Vec<u8>)
        ensures
            msg@ == self.spec_describe(platform, source_text@),
    {
        match self {
            DaemonLockError::AccessFailed { scope, path, .. } => {
                let subject = scoped_subject(platform, *scope, path.as_slice());
                compose_message("access failed: ", subject.as_slice(), source_text)
            },
            DaemonLockError::AlreadyLocked { scope, path, pid } => {
                let subject = scoped_subject(platform, *scope, path.as_slice());
                let detail = match pid {
                    Some(p) => encode_decimal(*p),
                    None => {
                        let mut out: Vec<u8> = Vec::new();
                        append_bytes(&mut out, "unknown".as_bytes());
                        out
                    },
                };
                compose_message("already locked: ", subject.as_slice(), detail.as_slice())
            },
        }
    }

    /// The message of the error (see [`DaemonLockError::describe_with`]).
    pub fn describe(&self, platform: Platform) -> (msg: Vec<u8>)
        ensures
            exists|source_text: Seq<u8>| msg@ == self.spec_describe(platform, source_text),
            self is AlreadyLocked ==> msg@ == self.spec_describe(platform, Seq::empty()),
    {
        match self {
            DaemonLockError::AccessFailed { source, .. } => {
                let text = io_error_text(source);
                self.describe_with(platform, text.as_slice())
            },
            DaemonLockError::AlreadyLocked { .. } => {
                let none: Vec<u8> = Vec::new();
                self.describe_with(platform, none.as_slice())
            },
        }
    }
}

fn scoped_subject(platform: Platform, scope: ScopeKey, path: &[u8]) -> (subject: Vec<u8>)
    ensures
        subject@ == spec_scoped_subject(platform, scope, path@),
{
    let mut out: Vec<u8> = Vec::new();
    append_bytes(&mut out, scope.as_str().as_bytes());
    out.push(58u8);
    out.push(32u8);
    let shown = match platform {
        Platform::Unix => lossy_utf8(path),
        Platform::Windows => os_text(path),
    };
    append_bytes(&mut out, shown.as_slice());
    assert(out@ =~= spec_scoped_subject(platform, scope, path@));
    out
}

impl Scoped for DaemonLockError {
    open spec fn spec_scope(&self) -> ScopeKey {
        match self {
            DaemonLockError::AccessFailed { scope, .. } => *scope,
            DaemonLockError::AlreadyLocked { scope, .. } => *scope,
        }
    }

    fn scope(&self) -> (key: ScopeKey) {
        match self {
            DaemonLockError::AccessFailed { scope, .. } => *scope,
            DaemonLockError::AlreadyLocked { scope, .. } => *scope,
        }
    }
}

/// The lock of the daemon of scope `T`, held by this process through its
/// lockfile.
#[derive(Debug)]
pub struct DaemonLock<T> {
    inner: Lockfile<T>,
}

impl<T: DaemonScope> DaemonLock<T> {
    /// The process id that the lock records.
    pub closed spec fn spec_pid(&self) -> u32 {
        self.inner.spec_pid()
    }

    /// The lock's path.
    pub closed spec fn spec_path(&self) -> Seq<u8> {
        self.inner.spec_path()
    }

    /// The outcome of taking the daemon lock through the lockfile.
    pub fn from_lockfile(outcome: Result<Lockfile<T>, LockfileError>) -> (r: Result<
        DaemonLock<T>,
        DaemonLockError,
    >)
        ensures
            match outcome {
                Ok(lock) => r matches Ok(d) && d.spec_pid() == lock.spec_pid() && d.spec_path()
                    == lock.spec_path(),
                Err(error) => r matches Err(e) && match error {
                    LockfileError::AccessFailed { scope, path, source } => e
                        == (DaemonLockError::AccessFailed { scope, path, source }),
                    LockfileError::AlreadyLocked { scope, path, pid } => e
                        == (DaemonLockError::AlreadyLocked { scope, path, pid }),
                },
            },
    {
        match outcome {
            Ok(inner) => Ok(DaemonLock { inner }),
            Err(error) => Err(DaemonLockError::from_lockfile_error(error)),
        }
    }

    /// The process id that the lock records.
    pub fn pid(&self) -> (pid: u32)
        ensures
            pid == self.spec_pid(),
    {
        self.inner.pid()
    }

    /// The lock's path.
    pub fn path(&self) -> (path: &[u8])
        ensures
            path@ == self.spec_path(),
    {
        self.inner.path()
    }
}

impl<T: DaemonScope> Scoped for DaemonLock<T> {
    open spec fn spec_scope(&self) -> ScopeKey {
        T::spec_key()
    }

    fn scope(&self) -> (key: ScopeKey) {
        T::key()
    }
}

} // verus!
