# runtime

The Remote Control bridge and the cron scheduler of an agent command-line tool, with
their logic proved in Verus.

- `src/` is the verified library.
  - `json.rs`: JSON documents as plain values, with their model (`JsonView`), member
    lookup, and the call into `serde_json` that reads a text.
  - `json_keys.rs`: the member names and values of a JSON object as they stand in its text,
    duplicates included.
  - `text.rs`: string helpers (comparison, decimal notation, trimming).
  - `bridge/types.rs`: protocol types of the environments API.
  - `bridge/api.rs`: ID validation, the requests of every API call (path, method,
    token, body, query, timeout), status checks, error mapping and answer reading.
  - `bridge/ingress.rs`: the ingress message format (envelopes, control commands,
    permission requests), the read loop's decisions, the handshake checks and the
    events sent back.
  - `bridge/manager.rs`: the bridge state machine (registration, sessions of
    acknowledged work, stop).
  - `bridge/session.rs`: session layouts and directories by spawn mode, git source and token
    selection, repository commands, credential helper and auth environment.
  - `cron_scheduler.rs`: scheduler start/stop, cron expressions (five fields
    read with a seconds field in front), when a job is due, and which jobs fire.
- `app/` is the runtime around it: HTTP (reqwest), WebSocket (tokio-tungstenite),
  async tasks and channels (tokio), processes and files, the clock, and the serde
  forms of the protocol types.
- `tests/` exercises the library on concrete values.
