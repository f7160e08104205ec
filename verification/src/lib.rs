//! Cross-platform daemon lifecycle primitives: lock enforcement records and
//! runtime directory discovery, with their decisions verified.

pub mod capture;
pub mod daemon_lock;
pub mod io;
pub mod lockfile;
pub mod mutex;
pub mod scope;
pub mod text;
pub mod path;
pub mod rundir;
mod sealed;

pub use scope::{daemon_name, Acquire, DaemonScope, Global, Local, ScopeKey, Scoped, TryAcquire};
