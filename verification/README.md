# ultracode_workflow

The rules by which a coding agent's server, its supervisor and its terminal frontend run dynamic
workflows: who may launch a workflow, under which authority its workers run, where they work, and
how their ends are delivered. The library decides; the code around it talks to Git, files,
processes, sockets and the terminal.

`src/` is the library. Every function states its contract, and Verus proves it.

- Requests to the server: `authority`, `prepare`, `checkout`, `grant`, `base`, `worker`, `inventory`,
  `worker_flow`, `release`, `save`, `completion`, `turn`, `turn_flow`, `turn_input`, `turn_request`,
  `settings`, `review`, `realtime`, `agent`, `approvals`, `failure`.
- The supervisor: `host`, `host_binding`, `host_socket`, `serve`, `ledger`, `bridge`, `headless`,
  `backend`.
- The frontend: `app`, `dispatch`, `launch`, `events`, `editing`, `consent`, `render`, `catalog`,
  `session`, `status`, `effort`, `action`.
- Common ground: `text`, `path`, `ids`, `digest`, `json`, `registry`, `thread_table`, `workspace`,
  `protocol`, `error`.

What takes several commands or questions is a machine of steps: a function tells what follows each
answer, and the caller performs the steps. Proof functions state what holds of every walk through
them, for instance that nothing is made before it was granted, that a release destroys no work, and
that a launch whose outcome is unknown is not repeated.

What the library takes from other crates (`serde_json`, `sha2`, `uuid`, `unicode-width`) is called
in small trusted functions in `json`, `digest`, `ids` and `render`; each says what is believed of the
call. `text` does the same for two calls of the standard library.

`app/` holds what runs around the library, and `tests/` exercises the library from outside.
