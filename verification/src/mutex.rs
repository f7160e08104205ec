//! Named-mutex locking (the Windows way of enforcing one daemon per scope):
//! the decisions around creating a mutex named after the daemon, under the
//! `Global\` or `Local\` namespace of its scope. Names are held as the
//! encoded bytes of the operating system's strings.
use vstd::prelude::*;
use vstd::string::StringSliceAdditionalSpecFns;

use core::marker::PhantomData;

use crate::io::io_error_text;
use crate::scope::{DaemonScope, Global, Local, ScopeKey, Scoped};
use crate::text::{append_bytes, compose_message, os_text, os_text_lossy, spec_message};

verus! {

/// The namespace of a scope's mutexes.
pub open spec fn spec_prefix(key: ScopeKey) -> Seq<u8> {
    match key {
        ScopeKey::Global => "Global".spec_bytes(),
        ScopeKey::Local => "Local".spec_bytes(),
    }
}

/// The full name of a mutex: `{namespace}\{name}`.
pub open spec fn spec_prefixed_name(key: ScopeKey, name: Seq<u8>) -> Seq<u8> {
    spec_prefix(key).push(92u8) + name
}

/// How a mutex is named in messages: `{namespace}\{name}`, the name shown
/// as `OsStr::to_string_lossy` shows it on Windows.
pub open spec fn spec_shown_name(key: ScopeKey, name: Seq<u8>) -> Seq<u8> {
    spec_prefix(key).push(92u8) + os_text_lossy(name)
}

/// Whether a name holds a NUL byte, which no mutex name may hold.
pub open spec fn has_nul(name: Seq<u8>) -> bool {
    exists|i: int| 0 <= i < name.len() && name[i] == 0
}

impl ScopeKey {
    /// The namespace of the scope's mutexes.
    pub fn as_prefix(&self) -> (prefix: &'static str)
        ensures
            prefix.spec_bytes() == spec_prefix(*self),
    {
        match *self {
            ScopeKey::Global => "Global",
            ScopeKey::Local => "Local",
        }
    }

    /// The full name of the scope's mutex called `name`.
    pub fn with_prefix(&self, name: &[u8]) -> (prefixed: Vec<u8>)
        ensures
            prefixed@ == spec_prefixed_name(*self, name@),
    {
        let mut out: Vec<u8> = Vec::new();
        append_bytes(&mut out, self.as_prefix().as_bytes());
        out.push(92u8);
        append_bytes(&mut out, name);
        assert(out@ =~= spec_prefixed_name(*self, name@));
        out
    }
}

/// Calls `std::io::Error::new` with kind `InvalidInput` and the given
/// text. Nothing is stated of the opaque error value.
#[verifier::external_body]
fn invalid_input_error(text: &str) -> std::io::Error {
    std::io::Error::new(std::io::ErrorKind::InvalidInput, text)
}

/// Why a named mutex was not taken.
#[derive(Debug)]
pub enum MutexError {
    /// The mutex could not be created (or its name is not a valid one).
    AccessFailed { scope: ScopeKey, name: Vec<u8>, source: std::io::Error },
    /// The mutex exists: another process holds it.
    AlreadyLocked { scope: ScopeKey, name: Vec<u8> },
}

impl MutexError {
    /// The mutex's name, without its namespace.
    pub open spec fn spec_name(&self) -> Seq<u8> {
        match self {
            MutexError::AccessFailed { name, .. } => name@,
            MutexError::AlreadyLocked { name, .. } => name@,
        }
    }

    /// The message of the error, with `source_text` as the text of the
    /// operating system's error.
    pub open spec fn spec_describe(&self, source_text: Seq<u8>) -> Seq<u8> {
        match self {
            MutexError::AccessFailed { scope, name, .. } => spec_message(
                "access failed: ".spec_bytes(),
                spec_shown_name(*scope, name@),
                source_text,
            ),
            MutexError::AlreadyLocked { scope, name } => "already locked: ".spec_bytes()
                + spec_shown_name(*scope, name@),
        }
    }

    /// The mutex's name.
    pub fn name(&self) -> (name: &[u8])
        ensures
            name@ == self.spec_name(),
    {
        match self {
            MutexError::AccessFailed { name, .. } => name.as_slice(),
            MutexError::AlreadyLocked { name, .. } => name.as_slice(),
        }
    }

    /// The mutex's name, taken out of the error.
    pub fn into_name(self) -> (name: Vec<u8>)
        ensures
            name@ == self.spec_name(),
    {
        match self {
            MutexError::AccessFailed { name, .. } => name,
            MutexError::AlreadyLocked { name, .. } => name,
        }
    }

    /// The message of the error, given the text of the operating system's
    /// error: `access failed: {namespace}\{name}: {source}` or
    /// `already locked: {namespace}\{name}`, the name shown as
    /// `OsStr::to_string_lossy` shows it on Windows.
    pub fn describe_with(&self, source_text: &[u8]) -> (msg: Vec<u8>)
        ensures
            msg@ == self.spec_describe(source_text@),
    {
        match self {
            MutexError::AccessFailed { scope, name, .. } => {
                let shown = os_text(name.as_slice());
                let full = scope.with_prefix(shown.as_slice());
                compose_message("access failed: ", full.as_slice(), source_text)
            },
            MutexError::AlreadyLocked { scope, name } => {
                let shown = os_text(name.as_slice());
                let full = scope.with_prefix(shown.as_slice());
                let mut out: Vec<u8> = Vec::new();
                append_bytes(&mut out, "already locked: ".as_bytes());
                append_bytes(&mut out, full.as_slice());
                out
            },
        }
    }

    /// The message of the error (see [`MutexError::describe_with`]).
    pub fn describe(&self) -> (msg: Vec<u8>)
        ensures
            exists|source_text: Seq<u8>| msg@ == self.spec_describe(source_text),
            self is AlreadyLocked ==> msg@ == self.spec_describe(Seq::empty()),
    {
        match self {
            MutexError::AccessFailed { source, .. } => {
                let text = io_error_text(source);
                self.describe_with(text.as_slice())
            },
            MutexError::AlreadyLocked { .. } => {
                let none: Vec<u8> = Vec::new();
                self.describe_with(none.as_slice())
            },
        }
    }
}

impl Scoped for MutexError {
    open spec fn spec_scope(&self) -> ScopeKey {
        match self {
            MutexError::AccessFailed { scope, .. } => *scope,
            MutexError::AlreadyLocked { scope, .. } => *scope,
        }
    }

    fn scope(&self) -> (key: ScopeKey) {
        match self {
            MutexError::AccessFailed { scope, .. } => *scope,
            MutexError::AlreadyLocked { scope, .. } => *scope,
        }
    }
}

/// The named mutex of the daemon of scope `T`, held by this process.
#[derive(Debug)]
pub struct Mutex<T> {
    name: Vec<u8>,
    _scope: PhantomData<T>,
}

impl<T: DaemonScope> Mutex<T> {
    /// The mutex's name, without its namespace.
    pub closed spec fn spec_name(&self) -> Seq<u8> {
        self.name@
    }

    /// The full name under which the mutex of scope `T` called `name` is to
    /// be created, or the refusal of a name that holds a NUL byte.
    pub fn prefixed_name(name: Vec<u8>) -> (r: Result<(Vec<u8>, Vec<u8>), MutexError>)
        ensures
            has_nul(spec_prefixed_name(T::spec_key(), name@)) ==> (r matches Err(
                MutexError::AccessFailed { scope, name: n, .. },
            ) && scope == T::spec_key() && n == name),
            !has_nul(spec_prefixed_name(T::spec_key(), name@)) ==> (r matches Ok((n, full)) && n
                == name && full@ == spec_prefixed_name(T::spec_key(), name@)),
    {
        let scope = T::key();
        let full = scope.with_prefix(name.as_slice());
        let mut i: usize = 0;
        while i < full.len()
            invariant
                i <= full.len(),
                forall|k: int| 0 <= k < i ==> full@[k] != 0,
                full@ == spec_prefixed_name(T::spec_key(), name@),
                scope == T::spec_key(),
            decreases full.len() - i,
        {
            if full[i] == 0 {
                assert(has_nul(full@));
                return Err(MutexError::AccessFailed { scope, name, source: invalid_input_error("invalid name") });
            }
            i = i + 1;
        }
        Ok((name, full))
    }

    /// The outcome of creating the mutex of scope `T` called `name`: a mutex
    /// that already existed is held by another process, whatever the
    /// creation returned; otherwise the creation decides.
    pub fn from_creation(name: Vec<u8>, created: Result<(), std::io::Error>, already_exists: bool) -> (r:
        Result<Mutex<T>, MutexError>)
        ensures
            already_exists ==> (r matches Err(MutexError::AlreadyLocked { scope, name: n })
                && scope == T::spec_key() && n == name),
            !already_exists && created is Ok ==> (r matches Ok(m) && m.spec_name() == name@),
            !already_exists && created is Err ==> (r matches Err(
                MutexError::AccessFailed { scope, name: n, source },
            ) && scope == T::spec_key() && n == name && created == Err::<(), std::io::Error>(
                source,
            )),
    {
        if already_exists {
            return Err(MutexError::AlreadyLocked { scope: T::key(), name });
        }
        match created {
            Ok(()) => Ok(Mutex { name, _scope: PhantomData }),
            Err(source) => Err(MutexError::AccessFailed { scope: T::key(), name, source }),
        }
    }

    /// The mutex's name, without its namespace.
    pub fn name(&self) -> (name: &[u8])
        ensures
            name@ == self.spec_name(),
    {
        self.name.as_slice()
    }
}

impl<T: DaemonScope> Scoped for Mutex<T> {
    open spec fn spec_scope(&self) -> ScopeKey {
        T::spec_key()
    }

    fn scope(&self) -> (key: ScopeKey) {
        T::key()
    }
}

/// A named mutex of either scope.
#[derive(Debug)]
pub enum ScopedMutex {
    Global(Mutex<Global>),
    Local(Mutex<Local>),
}

impl ScopedMutex {
    /// The mutex's name, without its namespace.
    pub open spec fn spec_name(&self) -> Seq<u8> {
        match self {
            ScopedMutex::Global(m) => m.spec_name(),
            ScopedMutex::Local(m) => m.spec_name(),
        }
    }

    /// Forgets the scope type of a mutex, keeping its scope as a value.
    pub fn from_mutex<T: DaemonScope>(mutex: Mutex<T>) -> (scoped: ScopedMutex)
        ensures
            scoped.spec_scope() == T::spec_key(),
            scoped.spec_name() == mutex.spec_name(),
    {
        let Mutex { name, .. } = mutex;
        match T::key() {
            ScopeKey::Global => ScopedMutex::Global(Mutex { name, _scope: PhantomData }),
            ScopeKey::Local => ScopedMutex::Local(Mutex { name, _scope: PhantomData }),
        }
    }

    /// The mutex's name, without its namespace.
    pub fn name(&self) -> (name: &[u8])
        ensures
            name@ == self.spec_name(),
    {
        match self {
            ScopedMutex::Global(m) => m.name(),
            ScopedMutex::Local(m) => m.name(),
        }
    }
}

impl Scoped for ScopedMutex {
    open spec fn spec_scope(&self) -> ScopeKey {
        match self {
            ScopedMutex::Global(_) => ScopeKey::Global,
            ScopedMutex::Local(_) => ScopeKey::Local,
        }
    }

    fn scope(&self) -> (key: ScopeKey) {
        match self {
            ScopedMutex::Global(_) => ScopeKey::Global,
            ScopedMutex::Local(_) => ScopeKey::Local,
        }
    }
}

} // verus!
