# daemonbit

Daemon lifecycle primitives: one lock per daemon and scope, and discovery of
the scope's runtime directory.

- `src/` is the library, verified with Verus: scope names, the decimal
  process-id record of a lockfile, the lock-taking state machine, runtime
  directory location and state, named-mutex decisions, error messages, and
  the search of captured log output.
- `app/` performs what the library decides: it reads the environment,
  creates and removes directories, opens, locks, reads and writes the
  lockfile (with `nix`), logs warnings (with `tracing`), and keeps one shared
  runtime directory per scope in the process.
- `tests/` runs the library on concrete values.
