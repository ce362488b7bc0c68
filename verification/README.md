# Aether Desktop

A Windows VPN routing manager: it runs the Aether WARP client as a local SOCKS5
proxy and a sing-box TUN router in front of it, and sends each application's
traffic to Aether, to a secondary proxy (Xray / V2Ray) or directly to the
network, according to per-application and compatibility rules.

## Layout

- `src/` is the library, verified with Verus. It holds the logic:
  - `routing/`: generation of the sing-box configuration from the settings,
    top-down route resolution, the preset rules, share-link and subscription
    parsing, and the proved routing precedence (`routing/precedence.rs`);
  - `process/`: the connection lifecycle (`orchestrator.rs`), the gateway
    optimization with its rollback (`optimizer.rs`), router verification
    (`router_check.rs`), live application of new settings with verified
    rollback (`live_apply.rs`), Aether output parsing (`runner.rs`) and the
    process listings (`detector.rs`);
  - `health/`: trace parsing, error reports, the staged egress verification
    and the health report;
  - `settings/`, `models/`, `logging/`, `dependencies/`, `commands/`: storage
    locations and migration, the data model, the in-memory log, engine
    installation, the decisions behind the interface's commands and those of
    the window shell (start, close to tray, exit).

  Every sequence that alternates outside work and decisions is a step function
  from state and event to next state and command. The public `law_*` proof
  functions state its properties step by step (what a step may lead to, and
  from which steps an outcome can come); a whole connection attempt and a whole
  run of log lines also have laws of their own.
- `app/` is ordinary Rust around the library: file, process and network I/O,
  the asynchronous drivers that perform the commands of the step functions,
  and the JSON forms of the library's types. The window shell (Tauri, with its
  tray and dialogs) is a separate program: it registers the functions of
  `app/commands.rs` as its commands and reports its events to
  `app/shell.rs`.
- `tests/` runs the library on concrete values.
