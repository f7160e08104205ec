use vstd::prelude::*;

use crate::sealed::Sealed;

verus! {

/// Which runtime area a daemon lives in: the system-wide one or the one of
/// the current user.
#[derive(Copy, Clone, Eq, PartialEq, Structural, Hash, Debug)]
pub enum ScopeKey {
    Global,
    Local,
}

/// The textual name of a scope.
pub open spec fn scope_text(key: ScopeKey) -> Seq<char> {
    match key {
        ScopeKey::Global => seq!['g', 'l', 'o', 'b', 'a', 'l'],
        ScopeKey::Local => seq!['l', 'o', 'c', 'a', 'l'],
    }
}

/// The scope that a text names, if it names one.
pub open spec fn parse_scope_text(text: Seq<char>) -> Option<ScopeKey> {
    if text == scope_text(ScopeKey::Global) {
        Some(ScopeKey::Global)
    } else if text == scope_text(ScopeKey::Local) {
        Some(ScopeKey::Local)
    } else {
        None
    }
}


impl ScopeKey {
    /// Reads a scope from its name: `"global"` or `"local"`, nothing else.
    pub fn from_str(scope: &str) -> (key: Option<ScopeKey>)
        ensures
            key == parse_scope_text(scope@),
    {
        let n = scope.unicode_len();
        if n == 6 && scope.get_char(0) == 'g' && scope.get_char(1) == 'l' && scope.get_char(2) == 'o'
            && scope.get_char(3) == 'b' && scope.get_char(4) == 'a' && scope.get_char(5) == 'l' {
            assert(scope@ =~= scope_text(ScopeKey::Global));
            Some(ScopeKey::Global)
        } else if n == 5 && scope.get_char(0) == 'l' && scope.get_char(1) == 'o' && scope.get_char(2) == 'c'
            && scope.get_char(3) == 'a' && scope.get_char(4) == 'l' {
            assert(scope@ =~= scope_text(ScopeKey::Local));
            Some(ScopeKey::Local)
        } else {
            None
        }
    }

    /// The name of the scope, as [`ScopeKey::from_str`] reads it.
    pub fn as_str(&self) -> (text: &'static str)
        ensures
            text@ == scope_text(*self),
    {
        match *self {
            ScopeKey::Global => {
                proof {
                    reveal_strlit("global");
                }
                "global"
            },
            ScopeKey::Local => {
                proof {
                    reveal_strlit("local");
                }
                "local"
            },
        }
    }
}

/// Reading the name of a scope gives that scope back.
pub proof fn lemma_scope_text_round_trip(key: ScopeKey)
    ensures
        parse_scope_text(scope_text(key)) == Some(key),
{
    assert(scope_text(ScopeKey::Global) != scope_text(ScopeKey::Local)) by {
        assert(scope_text(ScopeKey::Global).len() != scope_text(ScopeKey::Local).len());
    }
}

/// A text that names a scope is exactly that scope's name.
pub proof fn lemma_parsed_scope_is_its_text(text: Seq<char>, key: ScopeKey)
    requires
        parse_scope_text(text) == Some(key),
    ensures
        text == scope_text(key),
{
}

/// A type that stands for one of the two scopes.
pub trait DaemonScope: Sealed {
    spec fn spec_key() -> ScopeKey;

    fn key() -> (key: ScopeKey)
        ensures
            key == Self::spec_key(),
    ;
}

/// The system-wide scope; a marker type, never constructed.
#[derive(Debug)]
pub struct Global {
    _marker: (),
}

impl DaemonScope for Global {
    open spec fn spec_key() -> ScopeKey {
        ScopeKey::Global
    }

    fn key() -> (key: ScopeKey) {
        ScopeKey::Global
    }
}

/// The scope of the current user; a marker type, never constructed.
#[derive(Debug)]
pub struct Local {
    _marker: (),
}

impl DaemonScope for Local {
    open spec fn spec_key() -> ScopeKey {
        ScopeKey::Local
    }

    fn key() -> (key: ScopeKey) {
        ScopeKey::Local
    }
}

/// A value that belongs to a scope.
pub trait Scoped {
    spec fn spec_scope(&self) -> ScopeKey;

    fn scope(&self) -> (key: ScopeKey)
        ensures
            key == self.spec_scope(),
    ;
}

/// A resource that is taken for a scope, waiting as long as it takes.
pub trait Acquire<T: DaemonScope>: Sized {
    fn acquire() -> Self;
}

/// A resource that is taken for a scope, or refused at once.
pub trait TryAcquire<T: DaemonScope>: Sized {
    type Error;

    fn try_acquire() -> Result<Self, Self::Error>;
}

/// The daemon's name, as configured when the program was built. A daemon
/// must have a name: an empty one is a fault of the build, on which the
/// caller is to stop (the name may not be asked for then).
pub fn daemon_name(configured: &str) -> (name: &str)
    requires
        configured@.len() > 0,
    ensures
        name == configured,
{
    configured
}

} // verus!
