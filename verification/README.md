# watchtower

The decision logic of the Watchtower security-scanning dashboard, written in
Verus and verified: every public function states its result exactly, and
the library's laws are proved as proof functions next to the code.

- `src/db.rs` — the fingerprint that identifies a finding across scans, and
  the value a settings lookup yields.
- `src/scanners/zap.rs` — ZAP request URLs, API key and base URL choice, and
  how a ZAP alert becomes a finding.
- `src/scanners/progress.rs` — the bounded wait for a spider run or active
  scan to finish.
- `src/scanners/scan.rs` — a whole ZAP scan as a state machine, with the
  proof that it always finishes (within 1105 steps, whatever ZAP answers).
- `src/scanners/process.rs` — when a scanner's child process is killed.
- `src/frontend/` — the schedules form, the welcome wizard, and how API
  answers are read.
- `src/text.rs`, `src/number.rs` — integer rendering and parsing.

`app/` holds the I/O around it (SQLite through sqlx, HTTP through reqwest,
tokio processes and timers, the Leptos pages); it is ordinary Rust and asks
the library for every decision.
