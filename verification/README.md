# codex_tray

A tray indicator for the remaining Codex usage quota, built around a verified
library.

- `src/` — the library, verified with Verus:
  - `json.rs`: the JSON documents the app-server exchanges, with lookups,
    stores and copies specified over a mathematical model;
  - `limits.rs`: the usage snapshot read from the `account/read` and
    `account/rateLimits/read` responses, and the merge of sparse
    `account/rateLimits/updated` notifications;
  - `session.rs`: the app-server protocol as a state machine (handshake,
    responses, notifications, refresh, stop), plus the worker's reconnect
    decisions;
  - `wire.rs`: the line format, one JSON document per line, parsed and
    written through serde_json;
  - `panel.rs`: the panel's status, colours, tray icons and text rows;
  - `layout.rs`: DPI scaling, panel placement, hover and input decoding;
  - `text.rs`: decimal rendering, substring search, UTF-16 encoding;
  - `clock.rs`: the wall clock, read through std's `SystemTime`, and
    local-time rendering through chrono;
  - `settings.rs`: the `codex-tray.json` settings (language, start with
    Windows), written and read as JSON.
- `app/` — the program: the worker that runs `codex app-server`, reads and
  writes its lines, and drives the session. The Win32 tray front end is not
  part of this build; on start the program says so.
- `tests/` — tests of the library on concrete values.
