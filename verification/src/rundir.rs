//! Where a daemon keeps its runtime files, per scope: a persistent system or
//! user runtime directory when there is one, a temporary directory otherwise.
use vstd::prelude::*;

use core::marker::PhantomData;

use crate::path::{join, join_path};
use crate::scope::{DaemonScope, Global, Local, ScopeKey};
use crate::text::{append_bytes, decimal_text, encode_decimal};

verus! {

/// What the environment says about runtime directories, read by the caller:
/// the daemon's name, the effective user id, the system runtime directory
/// if there is one, `XDG_RUNTIME_DIR` if it is set (and whether it names a
/// directory), and the temporary directory.
#[derive(Debug)]
pub struct RundirEnv {
    pub daemon_name: Vec<u8>,
    pub euid: u32,
    pub run_dir: Option<Vec<u8>>,
    pub xdg_runtime_dir: Option<Vec<u8>>,
    pub xdg_runtime_dir_is_dir: bool,
    pub temp_dir: Vec<u8>,
}

/// The bytes of an optional path.
pub open spec fn opt_bytes(o: Option<Vec<u8>>) -> Option<Seq<u8>> {
    match o {
        Some(v) => Some(v@),
        None => None,
    }
}

/// `/run`, as bytes.
pub open spec fn run_path() -> Seq<u8> {
    seq![47u8, 114u8, 117u8, 110u8]
}

/// `/var/run`, as bytes.
pub open spec fn var_run_path() -> Seq<u8> {
    seq![47u8, 118u8, 97u8, 114u8, 47u8, 114u8, 117u8, 110u8]
}

/// `user/{euid}`: where a user's runtime directory lies below the system one.
pub open spec fn user_dir(euid: u32) -> Seq<u8> {
    seq![117u8, 115u8, 101u8, 114u8, 47u8] + decimal_text(euid as nat)
}

/// The persistent runtime directory of a scope, if there is one.
pub open spec fn spec_rundir_path(scope: ScopeKey, env: RundirEnv) -> Option<Seq<u8>> {
    match scope {
        ScopeKey::Global => opt_bytes(env.run_dir),
        ScopeKey::Local => {
            if env.xdg_runtime_dir is Some && env.xdg_runtime_dir_is_dir {
                opt_bytes(env.xdg_runtime_dir)
            } else {
                match env.run_dir {
                    Some(run) => Some(join_path(run@, user_dir(env.euid))),
                    None => None,
                }
            }
        },
    }
}

/// The name of a scope's directory inside the temporary directory: the
/// daemon's name, followed by `-{euid}` for a user's scope.
pub open spec fn spec_rundir_name(scope: ScopeKey, name: Seq<u8>, euid: u32) -> Seq<u8> {
    match scope {
        ScopeKey::Global => name,
        ScopeKey::Local => name.push(45u8) + decimal_text(euid as nat),
    }
}

/// Where the runtime directory of a scope is, and whether it is temporary.
pub open spec fn spec_location(scope: ScopeKey, env: RundirEnv) -> (Seq<u8>, bool) {
    match spec_rundir_path(scope, env) {
        Some(dir) => (join_path(dir, env.daemon_name@), false),
        None => (
            join_path(env.temp_dir@, spec_rundir_name(scope, env.daemon_name@, env.euid)),
            true,
        ),
    }
}

impl RundirEnv {
    /// The system runtime directory: `/run` if it is a directory, else
    /// `/var/run` if that is one.
    pub fn run_dir_from_probe(run_is_dir: bool, var_run_is_dir: bool) -> (dir: Option<Vec<u8>>)
        ensures
            opt_bytes(dir) == (if run_is_dir {
                Some(run_path())
            } else if var_run_is_dir {
                Some(var_run_path())
            } else {
                None::<Seq<u8>>
            }),
    {
        if run_is_dir {
            let v = vec![47u8, 114u8, 117u8, 110u8];
            assert(v@ =~= run_path());
            Some(v)
        } else if var_run_is_dir {
            let v = vec![47u8, 118u8, 97u8, 114u8, 47u8, 114u8, 117u8, 110u8];
            assert(v@ =~= var_run_path());
            Some(v)
        } else {
            None
        }
    }
}

impl ScopeKey {
    /// The persistent runtime directory of this scope, if the environment has
    /// one: the system one for the global scope; for a user's scope
    /// `XDG_RUNTIME_DIR` when it is a directory, else `user/{euid}` below the
    /// system one.
    pub fn rundir_path(&self, env: &RundirEnv) -> (dir: Option<Vec<u8>>)
        ensures
            opt_bytes(dir) == spec_rundir_path(*self, *env),
    {
        match *self {
            ScopeKey::Global => match &env.run_dir {
                Some(run) => Some(clone_bytes(run)),
                None => None,
            },
            ScopeKey::Local => {
                match &env.xdg_runtime_dir {
                    Some(xdg) => {
                        if env.xdg_runtime_dir_is_dir {
                            return Some(clone_bytes(xdg));
                        }
                    },
                    None => {},
                }
                match &env.run_dir {
                    Some(run) => {
                        let mut rel: Vec<u8> = vec![117u8, 115u8, 101u8, 114u8, 47u8];
                        let id = encode_decimal(env.euid);
                        append_bytes(&mut rel, id.as_slice());
                        assert(rel@ =~= user_dir(env.euid));
                        Some(join(run.as_slice(), rel.as_slice()))
                    },
                    None => None,
                }
            },
        }
    }

    /// The name of this scope's directory inside the temporary directory.
    pub fn rundir_name(&self, name: &[u8], euid: u32) -> (dir_name: Vec<u8>)
        ensures
            dir_name@ == spec_rundir_name(*self, name@, euid),
    {
        let mut out: Vec<u8> = Vec::new();
        append_bytes(&mut out, name);
        match *self {
            ScopeKey::Global => {
                assert(out@ =~= name@);
            },
            ScopeKey::Local => {
                out.push(45u8);
                let id = encode_decimal(euid);
                append_bytes(&mut out, id.as_slice());
                assert(out@ =~= spec_rundir_name(*self, name@, euid));
            },
        }
        out
    }
}

fn clone_bytes(v: &Vec<u8>) -> (c: Vec<u8>)
    ensures
        c@ == v@,
{
    let mut out: Vec<u8> = Vec::new();
    append_bytes(&mut out, v.as_slice());
    assert(out@ =~= v@);
    out
}

/// Whether a runtime directory is the persistent one of the system or the
/// user, or a temporary one that this process made and removes when the
/// last user lets go of it.
#[derive(Copy, Clone, PartialEq, Eq, Structural, Debug)]
pub enum State {
    Persistent,
    Temporary { remove_on_drop: bool },
}

/// The state once the directory is known to exist.
pub open spec fn spec_init(state: State) -> State {
    match state {
        State::Temporary { .. } => State::Temporary { remove_on_drop: true },
        State::Persistent => State::Persistent,
    }
}

/// Whether a directory in this state is removed once nobody uses it.
pub open spec fn spec_remove_on_drop(state: State) -> bool {
    match state {
        State::Temporary { remove_on_drop } => remove_on_drop,
        State::Persistent => false,
    }
}

impl State {
    /// Whether the directory is a temporary one.
    pub fn temporary(&self) -> (r: bool)
        ensures
            r == (*self is Temporary),
    {
        match *self {
            State::Temporary { .. } => true,
            State::Persistent => false,
        }
    }

    /// Whether the directory is to be removed once nobody uses it: only a
    /// temporary directory that this process has made.
    pub fn remove_on_drop(&self) -> (r: bool)
        ensures
            r == spec_remove_on_drop(*self),
    {
        match *self {
            State::Temporary { remove_on_drop } => remove_on_drop,
            State::Persistent => false,
        }
    }

    /// Whether the directory has to be created before use: a temporary one
    /// is; a persistent one is the system's or the user's and is not.
    pub fn needs_creation(&self) -> (r: bool)
        ensures
            r == (*self is Temporary),
    {
        self.temporary()
    }

    /// Records that the directory was created: a temporary directory is then
    /// removed on drop; a persistent one stays as it is.
    pub fn init(&mut self)
        ensures
            *final(self) == spec_init(*old(self)),
    {
        if let State::Temporary { remove_on_drop } = self {
            *remove_on_drop = true;
        }
    }
}

/// The runtime directory of the scope `T`: where it is, and what state it is in.
#[derive(Debug)]
pub struct RuntimeDirectory<T> {
    path: Vec<u8>,
    state: State,
    _scope: PhantomData<T>,
}

impl<T: DaemonScope> RuntimeDirectory<T> {
    /// The directory's path.
    pub closed spec fn spec_path(&self) -> Seq<u8> {
        self.path@
    }

    /// The directory's state.
    pub closed spec fn spec_state(&self) -> State {
        self.state
    }

    /// Decides where the runtime directory of scope `T` is: below the
    /// persistent runtime directory of the scope, named after the daemon,
    /// when the environment has one; else in the temporary directory, under
    /// [`ScopeKey::rundir_name`], as a temporary directory not yet made.
    pub fn get(env: &RundirEnv) -> (dir: Self)
        ensures
            dir.spec_path() == spec_location(T::spec_key(), *env).0,
            dir.spec_state() == (if spec_location(T::spec_key(), *env).1 {
                State::Temporary { remove_on_drop: false }
            } else {
                State::Persistent
            }),
    {
        let scope = T::key();
        match scope.rundir_path(env) {
            Some(dir) => RuntimeDirectory {
                path: join(dir.as_slice(), env.daemon_name.as_slice()),
                state: State::Persistent,
                _scope: PhantomData,
            },
            None => {
                let name = scope.rundir_name(env.daemon_name.as_slice(), env.euid);
                RuntimeDirectory {
                    path: join(env.temp_dir.as_slice(), name.as_slice()),
                    state: State::Temporary { remove_on_drop: false },
                    _scope: PhantomData,
                }
            },
        }
    }

    /// The directory's path.
    pub fn as_path(&self) -> (p: &[u8])
        ensures
            p@ == self.spec_path(),
    {
        self.path.as_slice()
    }

    /// Whether the directory is a temporary one.
    pub fn temporary(&self) -> (r: bool)
        ensures
            r == (self.spec_state() is Temporary),
    {
        self.state.temporary()
    }

    /// The directory's state.
    pub fn state(&self) -> (s: State)
        ensures
            s == self.spec_state(),
    {
        self.state
    }

    /// Records that the directory was created (see [`State::init`]).
    pub fn init(&mut self)
        ensures
            final(self).spec_path() == old(self).spec_path(),
            final(self).spec_state() == spec_init(old(self).spec_state()),
    {
        self.state.init();
    }
}

/// A runtime directory of either scope.
#[derive(Debug)]
pub enum ScopedRuntimeDirectory {
    Global(RuntimeDirectory<Global>),
    Local(RuntimeDirectory<Local>),
}

impl ScopedRuntimeDirectory {
    /// The scope of the directory.
    pub open spec fn spec_scope(&self) -> ScopeKey {
        match self {
            ScopedRuntimeDirectory::Global(_) => ScopeKey::Global,
            ScopedRuntimeDirectory::Local(_) => ScopeKey::Local,
        }
    }

    /// The directory's path.
    pub open spec fn spec_path(&self) -> Seq<u8> {
        match self {
            ScopedRuntimeDirectory::Global(d) => d.spec_path(),
            ScopedRuntimeDirectory::Local(d) => d.spec_path(),
        }
    }

    /// The directory's state.
    pub open spec fn spec_state(&self) -> State {
        match self {
            ScopedRuntimeDirectory::Global(d) => d.spec_state(),
            ScopedRuntimeDirectory::Local(d) => d.spec_state(),
        }
    }

    /// Forgets the scope type of a runtime directory, keeping its scope as a value.
    pub fn from_rundir<T: DaemonScope>(dir: RuntimeDirectory<T>) -> (scoped: Self)
        ensures
            scoped.spec_scope() == T::spec_key(),
            scoped.spec_path() == dir.spec_path(),
            scoped.spec_state() == dir.spec_state(),
    {
        let RuntimeDirectory { path, state, .. } = dir;
        match T::key() {
            ScopeKey::Global => ScopedRuntimeDirectory::Global(
                RuntimeDirectory { path, state, _scope: PhantomData },
            ),
            ScopeKey::Local => ScopedRuntimeDirectory::Local(
                RuntimeDirectory { path, state, _scope: PhantomData },
            ),
        }
    }

    /// The scope of the directory.
    pub fn scope(&self) -> (key: ScopeKey)
        ensures
            key == self.spec_scope(),
    {
        match self {
            ScopedRuntimeDirectory::Global(_) => ScopeKey::Global,
            ScopedRuntimeDirectory::Local(_) => ScopeKey::Local,
        }
    }

    /// The directory's path.
    pub fn as_path(&self) -> (p: &[u8])
        ensures
            p@ == self.spec_path(),
    {
        match self {
            ScopedRuntimeDirectory::Global(d) => d.as_path(),
            ScopedRuntimeDirectory::Local(d) => d.as_path(),
        }
    }
}

/// Only temporary directories are ever removed, and a temporary directory
/// is removed once it has been made: a persistent directory belongs to the
/// system or the user and is left alone.
pub proof fn lemma_only_made_temporary_dirs_are_removed(state: State)
    ensures
        spec_remove_on_drop(state) ==> state is Temporary,
        spec_remove_on_drop(spec_init(state)) == (state is Temporary),
        (spec_init(state) is Temporary) == (state is Temporary),
{
}

/// A freshly located directory is never removed before it is made.
pub proof fn lemma_fresh_location_not_removed(scope: ScopeKey, env: RundirEnv)
    ensures
        !spec_remove_on_drop(
            if spec_location(scope, env).1 {
                State::Temporary { remove_on_drop: false }
            } else {
                State::Persistent
            },
        ),
{
}

/// The global runtime directory is the same for every user: it depends
/// neither on the user id nor on `XDG_RUNTIME_DIR`.
pub proof fn lemma_global_location_ignores_user(a: RundirEnv, b: RundirEnv)
    requires
        a.daemon_name@ == b.daemon_name@,
        opt_bytes(a.run_dir) == opt_bytes(b.run_dir),
        a.temp_dir@ == b.temp_dir@,
    ensures
        spec_location(ScopeKey::Global, a) == spec_location(ScopeKey::Global, b),
{
}

/// The decimal writing of a number names only that number.
pub proof fn lemma_decimal_text_injective(m: nat, n: nat)
    requires
        decimal_text(m) == decimal_text(n),
    ensures
        m == n,
{
    crate::text::lemma_decimal_text_round_trip(m);
    crate::text::lemma_decimal_text_round_trip(n);
}

/// Adjoining is one-to-one in what is adjoined, for names that agree on
/// being absolute.
proof fn lemma_join_injective(base: Seq<u8>, r1: Seq<u8>, r2: Seq<u8>)
    requires
        join_path(base, r1) == join_path(base, r2),
        r1.len() > 0,
        r2.len() > 0,
        r1[0] == r2[0],
    ensures
        r1 == r2,
{
    let j = join_path(base, r1);
    if crate::path::is_separator(r1[0]) {
    } else if base.len() == 0 || crate::path::is_separator(base.last()) {
        assert(r1 =~= j.subrange(base.len() as int, j.len() as int));
        assert(r2 =~= j.subrange(base.len() as int, j.len() as int));
    } else {
        assert(r1 =~= j.subrange(base.len() as int + 1, j.len() as int));
        assert(r2 =~= j.subrange(base.len() as int + 1, j.len() as int));
    }
}

/// Two users without a persistent runtime directory get different temporary
/// ones: a user's temporary directory is named after the user id.
pub proof fn lemma_user_temporary_dirs_are_distinct(a: RundirEnv, b: RundirEnv)
    requires
        spec_rundir_path(ScopeKey::Local, a) is None,
        spec_rundir_path(ScopeKey::Local, b) is None,
        a.daemon_name@ == b.daemon_name@,
        a.temp_dir@ == b.temp_dir@,
        a.euid != b.euid,
    ensures
        spec_location(ScopeKey::Local, a).0 != spec_location(ScopeKey::Local, b).0,
{
    let name = a.daemon_name@;
    let r1 = spec_rundir_name(ScopeKey::Local, name, a.euid);
    let r2 = spec_rundir_name(ScopeKey::Local, name, b.euid);
    crate::text::lemma_decimal_text_round_trip(a.euid as nat);
    crate::text::lemma_decimal_text_round_trip(b.euid as nat);
    if spec_location(ScopeKey::Local, a).0 == spec_location(ScopeKey::Local, b).0 {
        assert(r1[0] == r2[0]) by {
            if name.len() > 0 {
                assert(r1[0] == name[0]);
                assert(r2[0] == name[0]);
            } else {
                assert(r1[0] == 45u8);
                assert(r2[0] == 45u8);
            }
        }
        lemma_join_injective(a.temp_dir@, r1, r2);
        let k: int = name.len() as int + 1;
        assert(decimal_text(a.euid as nat) =~= r1.subrange(k, r1.len() as int));
        assert(decimal_text(b.euid as nat) =~= r2.subrange(k, r2.len() as int));
        lemma_decimal_text_injective(a.euid as nat, b.euid as nat);
    }
}

/// The global scope's persistent runtime directory is exactly the system
/// runtime directory that the probe found, and the daemon's directory lies
/// right inside it; without one, the daemon's directory is the temporary
/// directory named after the daemon.
pub proof fn lemma_global_rundir_is_the_system_one(env: RundirEnv)
    ensures
        spec_rundir_path(ScopeKey::Global, env) == opt_bytes(env.run_dir),
        env.run_dir is Some ==> spec_location(ScopeKey::Global, env) == (
            join_path(env.run_dir.unwrap()@, env.daemon_name@),
            false,
        ),
        env.run_dir is None ==> spec_location(ScopeKey::Global, env) == (
            join_path(env.temp_dir@, env.daemon_name@),
            true,
        ),
{
}

/// A user's persistent runtime directory is `XDG_RUNTIME_DIR` whenever that
/// is set to a directory, whatever the system runtime directory is; only
/// otherwise is it `user/{euid}` below the system one, and only without
/// both is the directory temporary.
pub proof fn lemma_local_rundir_prefers_xdg(env: RundirEnv)
    ensures
        (env.xdg_runtime_dir is Some && env.xdg_runtime_dir_is_dir) ==> spec_rundir_path(
            ScopeKey::Local,
            env,
        ) == opt_bytes(env.xdg_runtime_dir),
        (env.xdg_runtime_dir is Some && env.xdg_runtime_dir_is_dir) ==> spec_location(
            ScopeKey::Local,
            env,
        ) == (join_path(env.xdg_runtime_dir.unwrap()@, env.daemon_name@), false),
        !(env.xdg_runtime_dir is Some && env.xdg_runtime_dir_is_dir) ==> spec_rundir_path(
            ScopeKey::Local,
            env,
        ) == (match env.run_dir {
            Some(run) => Some(join_path(run@, user_dir(env.euid))),
            None => None::<Seq<u8>>,
        }),
        spec_location(ScopeKey::Local, env).1 == (!(env.xdg_runtime_dir is Some
            && env.xdg_runtime_dir_is_dir) && env.run_dir is None),
{
}

/// Without a persistent runtime directory, a user's daemon directory is
/// the temporary directory joined with `{daemon}-{euid}`, whose tail reads
/// back as the user id.
pub proof fn lemma_local_temporary_dir_names_the_user(env: RundirEnv)
    requires
        spec_rundir_path(ScopeKey::Local, env) is None,
    ensures
        spec_location(ScopeKey::Local, env).1,
        spec_location(ScopeKey::Local, env).0 == join_path(
            env.temp_dir@,
            env.daemon_name@.push(45u8) + decimal_text(env.euid as nat),
        ),
        crate::text::digits_value(
            spec_rundir_name(ScopeKey::Local, env.daemon_name@, env.euid).subrange(
                env.daemon_name@.len() as int + 1,
                spec_rundir_name(ScopeKey::Local, env.daemon_name@, env.euid).len() as int,
            ),
        ) == env.euid,
{
    let r = spec_rundir_name(ScopeKey::Local, env.daemon_name@, env.euid);
    assert(r.subrange(env.daemon_name@.len() as int + 1, r.len() as int) =~= decimal_text(
        env.euid as nat,
    ));
    crate::text::lemma_decimal_text_round_trip(env.euid as nat);
}

} // verus!
