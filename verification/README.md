# pianke

The logic of the Pianke desktop shell (a Tauri window around a local Python
server), written in Verus and verified.

- `src/` — the verified library:
  - `text` — string helpers (trim, split, join, search, decimal numbers) with
    specifications over character sequences;
  - `modes` — feature modes, the pip packages they need, the install state,
    mirror settings and paths;
  - `setup` — the set-up commands' decisions: run mode, automatic start,
    checking and planning a set-up request;
  - `update` — the self-update procedure: reading the latest commit, the
    update decision, the archive layout;
  - `runtime` — the Python runtime: locating `uv`, planning the virtual
    environment, install/readiness/server command lines;
  - `env` — recognising a supported Python, disk and memory thresholds;
  - `server` — port, address, start-up wait, health monitor, navigation;
  - `process` — stopping the server process group and freeing its port;
  - `launch` — the launch after a set-up request (install, start, start-up
    wait, health monitor) as a state machine, with laws over its runs.
- `app/` — the Tauri application: windows, menus, IPC commands, processes,
  files and network. It performs the library's actions and reports back;
  the one text it still formats itself is the disk and memory report, whose
  figures are floating-point numbers.
- `tests/` — tests of the library on concrete values.
