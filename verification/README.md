# codex_runtime_policy

Verified decision logic of the Codex app-server daemon and of multi-agent
spawning.

- `src/update.rs`: one pass of the standalone updater loop as a state machine
  (settings, fetch, binary identity, app-server restart, self re-execution),
  with its laws.
- `src/settings.rs`, `src/lifecycle.rs`: daemon settings, `bootstrap` and
  remote-control planning, state paths under `CODEX_HOME`, and `stop`'s
  escalation.
- `src/identity.rs`: executable identities.
- `src/records.rs`: the text of pid and lock files (pid, then the version of
  the launched binary), written and read back.
- `src/permissions.rs`, `src/proxy.rs`, `src/runtime.rs`, `src/agents.rs`:
  permission narrowing for spawned roles, the meet of network proxy policies,
  the runtime permission boundary restored after a role is applied, and the
  session-wide agent thread budget.
- `app/`: the I/O around it (settings file, lifecycle commands that each print
  one JSON object, the updater runner, signals).
