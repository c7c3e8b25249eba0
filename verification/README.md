# boxctl

The control logic of `boxctl`, the tool that runs the box proxy on Android, written in Verus
with its behaviour stated in contracts and proved.

- `src/control.rs` — the lifecycle commands (`up`, `down`, `restart`, `boot`, `status`) as
  state machines: the host performs each action (a log line, or work such as starting the core
  and applying the inbound rules) and reports the outcome back. Proved: a failed startup is
  rolled back and its report keeps every failure; startup is reported complete only after every
  step succeeded; every command ends.
- `src/monitor.rs` — the network monitor's worker: when it is needed, how it is stopped (it
  never signals an unverified process and never removes a held lock), its loop, and the
  handling of a network change.
- `src/logger.rs` — log arguments, the rendering of message templates in English or Chinese,
  and the records written to the console and the log files.
- `src/text.rs` — the character-level operations behind them (trimming, replacing, joining).
- `app/lib.rs` — plain Rust that runs the machines against the device and writes the logs.
- `tests/` — scenarios on concrete values.
