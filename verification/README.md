# agent_monitor

Server for monitoring a fleet of agents: agents push their process lists and
system statistics, operators read them back, queue kill commands that agents
collect, and log in with a password to obtain a signed token.

- `src/` is the library, verified with Verus:
  - `state.rs`: the registry of agents and their latest reports;
  - `commands.rs`: the per-agent command queues;
  - `history.rs`: the metrics history query;
  - `agents.rs`: agent creation, company assignment, the agent process URL;
  - `auth.rs`: password hashing, password checking, token issuing, deletion answers;
  - `text.rs`: decimal and UUID text.
- `app/` is the HTTP server (axum, sqlx, reqwest) around the library.
- `tests/` exercises the library with the real outside crates.
