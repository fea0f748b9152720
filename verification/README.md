# runtrue_persistence

The decision logic of the control plane's persistence layer, written in Verus
and proved against its contracts: what each store operation accepts, refuses,
writes and replays, independent of the database that holds the rows.

## Layout

- `src/` — the verified library. Each module owns one kind of record and the
  decisions taken over it:
  - `runs`, `jobs`, `states`: run creation, cancellation, job transitions and
    the conclusion of a run from its jobs;
  - `schedule`, `cron`, `triggers`, `expansion`: cron schedules, due-schedule
    reconciliation, normalized triggers and expanded job sets;
  - `scm`, `github`, `setup`, `links`, `webhooks`, `fetches`, `checks`,
    `continuations`: SCM installations, GitHub reconciliation and setup,
    lifecycle deliveries, repository links, webhook events, source fetches,
    check publications and gated continuations;
  - `snapshots`, `leases`, `capsules`: source snapshots, run source bindings,
    runner source tickets and capsule checks;
  - `projects`, `config`, `policy`, `policy_lifecycle`, `oidc`: configuration
    projects, secrets and variables, policy versions and their lifecycle, and
    OIDC grants;
  - `digest`, `json`, `bytes`, `error`: content digests (over `sha2` and
    `hex`), canonical JSON bytes (over `serde_json`), byte helpers and the
    error type.
  Properties that span several operations are stated as public `law_*` proof
  functions beside the operations they speak of.
- `tests/` — tests that run the library on concrete values.
- `app/` — a PostgreSQL store over `sqlx` that reads rows, hands them to the
  library's decisions and writes what they return.

Verify with Verus on `src/lib.rs`; the tests and `app/` build with Cargo.
