# tiny-log

A small log and metrics service with a host agent, whose decision logic is
verified with Verus.

- `src/` is the verified library:
  - `agent/`: the agent's configuration (file and environment merged), the
    parsing of `/proc` readings, the load hints and recommendations given to
    services, the outcome of HTTP, TCP, process and Docker checks, and the
    push client's retry policy.
  - `server/`: configuration, validation and normalisation of log entries and
    metric batches, the login rate limiter, access control for the API and
    the web pages, settings and retention, and the database split on
    migration.
  - `standalone/`: the single-binary variant of the server (configuration,
    login, settings).
  - `auth/`: password hashing and checking (argon2), session identifiers and
    cookies, bearer tokens and client addresses.
  - `text.rs`, `num.rs`, `clock.rs`, `paths.rs`, `flags.rs`, `error.rs`:
    strings, decimal numbers, timestamps, paths, boolean flags and the
    error type shared by the modules above.
- `app/` holds the programs around it: HTTP serving, SQLite access, the
  agent's probing and sampling loops, and the command line.
- `tests/` exercises the library on concrete values.
