use daemonbit::rundir::{RundirEnv, RuntimeDirectory, ScopedRuntimeDirectory, State};
use daemonbit::{Global, Local, ScopeKey};

const DAEMON_NAME: &[u8] = b"daemon";
const USER: u32 = 1000;

fn mock(run_dir: Option<&str>, xdg_runtime_dir: Option<&str>) -> RundirEnv {
    RundirEnv {
        daemon_name: DAEMON_NAME.to_vec(),
        euid: USER,
        run_dir: run_dir.map(|p| p.as_bytes().to_vec()),
        xdg_runtime_dir: xdg_runtime_dir.map(|p| p.as_bytes().to_vec()),
        xdg_runtime_dir_is_dir: true,
        temp_dir: b"/tmp".to_vec(),
    }
}

#[test]
fn persistent_local_xdg_present() {
    let env = mock(Some("/run"), Some("/home/user/.run"));
    let rundir = RuntimeDirectory::<Local>::get(&env);
    assert_eq!(rundir.as_path(), b"/home/user/.run/daemon");
    assert!(!rundir.temporary());
}

#[test]
fn persistent_local_xdg_missing() {
    let env = mock(Some("/run"), None);
    let rundir = RuntimeDirectory::<Local>::get(&env);
    assert_eq!(rundir.as_path(), b"/run/user/1000/daemon");
    assert!(!rundir.temporary());
}

#[test]
fn temporary_local() {
    let env = mock(None, None);
    let rundir = RuntimeDirectory::<Local>::get(&env);
    assert_eq!(rundir.as_path(), b"/tmp/daemon-1000");
    assert!(rundir.temporary());
}

#[test]
fn persistent_global_xdg_present() {
    let env = mock(Some("/run"), Some("/home/user/.run"));
    let rundir = RuntimeDirectory::<Global>::get(&env);
    assert_eq!(rundir.as_path(), b"/run/daemon");
    assert!(!rundir.temporary());
}

#[test]
fn persistent_global_xdg_missing() {
    let env = mock(Some("/run"), None);
    let rundir = RuntimeDirectory::<Global>::get(&env);
    assert_eq!(rundir.as_path(), b"/run/daemon");
    assert!(!rundir.temporary());
}

#[test]
fn temporary_global() {
    let env = mock(None, None);
    let rundir = RuntimeDirectory::<Global>::get(&env);
    assert_eq!(rundir.as_path(), b"/tmp/daemon");
    assert!(rundir.temporary());
}

#[test]
fn local_xdg_that_is_no_directory_falls_back() {
    let mut env = mock(Some("/var/run"), Some("/nowhere"));
    env.xdg_runtime_dir_is_dir = false;
    let rundir = RuntimeDirectory::<Local>::get(&env);
    assert_eq!(rundir.as_path(), b"/var/run/user/1000/daemon");
    let mut env = mock(None, Some("/nowhere"));
    env.xdg_runtime_dir_is_dir = false;
    let rundir = RuntimeDirectory::<Local>::get(&env);
    assert_eq!(rundir.as_path(), b"/tmp/daemon-1000");
    assert!(rundir.temporary());
}

#[test]
fn trailing_separators_are_not_doubled() {
    let mut env = mock(Some("/run/"), Some("/home/user/.run/"));
    env.temp_dir = b"/tmp/".to_vec();
    assert_eq!(RuntimeDirectory::<Local>::get(&env).as_path(), b"/home/user/.run/daemon");
    assert_eq!(RuntimeDirectory::<Global>::get(&env).as_path(), b"/run/daemon");
    let env = RundirEnv { run_dir: None, xdg_runtime_dir: None, ..env };
    assert_eq!(RuntimeDirectory::<Global>::get(&env).as_path(), b"/tmp/daemon");
}

#[test]
fn state_lifecycle() {
    let env = mock(None, None);
    let mut rundir = RuntimeDirectory::<Local>::get(&env);
    assert_eq!(rundir.state(), State::Temporary { remove_on_drop: false });
    assert!(rundir.state().needs_creation());
    assert!(!rundir.state().remove_on_drop());
    rundir.init();
    assert_eq!(rundir.state(), State::Temporary { remove_on_drop: true });
    assert!(rundir.state().remove_on_drop());
    assert_eq!(rundir.as_path(), b"/tmp/daemon-1000");

    let env = mock(Some("/run"), None);
    let mut rundir = RuntimeDirectory::<Global>::get(&env);
    assert!(!rundir.state().needs_creation());
    rundir.init();
    assert_eq!(rundir.state(), State::Persistent);
    assert!(!rundir.state().remove_on_drop());
}

#[test]
fn scoped_rundir_keeps_scope_and_path() {
    let env = mock(None, None);
    let scoped = ScopedRuntimeDirectory::from_rundir(RuntimeDirectory::<Local>::get(&env));
    assert_eq!(scoped.scope(), ScopeKey::Local);
    assert_eq!(scoped.as_path(), b"/tmp/daemon-1000");
    assert!(matches!(scoped, ScopedRuntimeDirectory::Local(_)));
    let scoped = ScopedRuntimeDirectory::from_rundir(RuntimeDirectory::<Global>::get(&env));
    assert_eq!(scoped.scope(), ScopeKey::Global);
    assert!(matches!(scoped, ScopedRuntimeDirectory::Global(_)));
}

#[test]
fn run_dir_probe_prefers_run() {
    assert_eq!(RundirEnv::run_dir_from_probe(true, true), Some(b"/run".to_vec()));
    assert_eq!(RundirEnv::run_dir_from_probe(false, true), Some(b"/var/run".to_vec()));
    assert_eq!(RundirEnv::run_dir_from_probe(false, false), None);
}

#[test]
fn scope_paths_and_names() {
    let env = mock(Some("/run"), None);
    assert_eq!(ScopeKey::Local.rundir_path(&env), Some(b"/run/user/1000".to_vec()));
    assert_eq!(ScopeKey::Global.rundir_path(&env), Some(b"/run".to_vec()));
    assert_eq!(ScopeKey::Local.rundir_name(b"d", 0), b"d-0".to_vec());
    assert_eq!(ScopeKey::Global.rundir_name(b"d", 0), b"d".to_vec());
}

#[test]
fn users_get_their_own_temporary_directories() {
    let mut a = mock(None, None);
    let mut b = mock(None, None);
    a.euid = 1000;
    b.euid = 1001;
    let pa = RuntimeDirectory::<Local>::get(&a);
    let pb = RuntimeDirectory::<Local>::get(&b);
    assert_ne!(pa.as_path(), pb.as_path());
    assert_eq!(pb.as_path(), b"/tmp/daemon-1001");
}

#[test]
fn global_directory_is_the_same_for_every_user() {
    let mut a = mock(Some("/run"), Some("/home/a/.run"));
    let mut b = mock(Some("/run"), None);
    a.euid = 1;
    b.euid = 2;
    assert_eq!(
        RuntimeDirectory::<Global>::get(&a).as_path(),
        RuntimeDirectory::<Global>::get(&b).as_path()
    );
}
