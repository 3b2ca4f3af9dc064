# jobs

A job manager for recurring jobs, verified with Verus.

- `src/` is the verified library: job configuration and data, parsed cron
  schedules and the rule that decides when a job is due (`job.rs`), spans of
  time (`interval.rs`), the executor of a job as a state
  machine (`executor.rs`), the registry that starts and stops jobs
  (`manager.rs`), the stored records of the PickleDB and MongoDB repositories
  with their locking rules (`repos/`), and separate lock records (`lock.rs`).
  Calls into outside crates stand behind trusted items in `crontab.rs`
  (cron), `codec.rs` (base64), `cancel.rs` (tokio's one-shot channel) and
  `manager.rs` (rand).
- `app/` is the asynchronous runtime around it: the job action and repository
  traits, the repositories that talk to PickleDB and MongoDB, the loop that
  drives each executor, and the manager that spawns executors with tokio.
- `tests/` runs the library on concrete values.
