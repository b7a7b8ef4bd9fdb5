//! Watchtower's decisions, verified: the fingerprint that identifies a
//! finding across scans, how the ZAP scanner runs a scan and turns its alerts
//! into findings, when a scanner's child process is stopped, and the state of
//! the schedules page and the welcome wizard. The callers do the I/O (HTTP,
//! SQLite, child processes, the browser) and hand plain values in.
pub mod db;
pub mod frontend;
pub mod number;
pub mod scanners;
pub mod text;
