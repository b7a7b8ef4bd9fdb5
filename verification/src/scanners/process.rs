//! Running a scanner's child process so that a "Stop" request can interrupt
//! it: while the child runs, the scan's cancellation flag is checked every
//! `POLL_INTERVAL_MS`; a cancelled scan has its child killed and yields no
//! output, a child that exits yields its status and captured output.
use vstd::prelude::*;

verus! {

/// Milliseconds between two checks of the cancellation flag.
pub const POLL_INTERVAL_MS: u64 = 500;

/// What a finished child left behind.
pub struct CancellableOutput {
    pub status_success: bool,
    pub stdout: Vec<u8>,
    pub stderr: Vec<u8>,
}

/// What happened while waiting for the child.
pub enum ChildEvent {
    /// The child exited. `success` is whether its exit status reports
    /// success, or `None` when the status could not be obtained; `stdout` and
    /// `stderr` are what the readers collected, `None` when a reader failed.
    Exited { success: Option<bool>, stdout: Option<Vec<u8>>, stderr: Option<Vec<u8>> },
    /// A poll interval passed; the scan's cancellation flag, `None` when the
    /// scan has none.
    Tick(Option<bool>),
}

/// What to do next.
pub enum ChildAction {
    /// Keep waiting for the child or the next tick.
    KeepWaiting,
    /// Kill the child, stop the readers, and report the run as cancelled
    /// (no output).
    Cancel,
    /// Report this result: the output, or `None` when the exit status could
    /// not be obtained.
    Finish(Option<CancellableOutput>),
}

pub open spec fn bytes_or_empty(b: Option<Vec<u8>>) -> Seq<u8> {
    match b {
        Some(v) => v@,
        None => Seq::empty(),
    }
}

/// The action `action` is the one that `ev` calls for.
pub open spec fn child_action_for(ev: ChildEvent, action: ChildAction) -> bool {
    match ev {
        ChildEvent::Exited { success, stdout, stderr } => match success {
            Some(ok) => action matches ChildAction::Finish(Some(out)) && out.status_success == ok
                && out.stdout@ == bytes_or_empty(stdout) && out.stderr@ == bytes_or_empty(stderr),
            None => action matches ChildAction::Finish(None),
        },
        ChildEvent::Tick(flag) => if flag == Some(true) {
            action is Cancel
        } else {
            action is KeepWaiting
        },
    }
}

fn bytes_or_default(b: Option<Vec<u8>>) -> (v: Vec<u8>)
    ensures
        v@ == bytes_or_empty(b),
{
    match b {
        Some(v) => v,
        None => Vec::new(),
    }
}

/// Decides what follows an event while a scanner's child process runs.
pub fn on_child_event(ev: ChildEvent) -> (action: ChildAction)
    ensures
        child_action_for(ev, action),
        match ev {
            ChildEvent::Exited { success, stdout, stderr } => match success {
                Some(ok) => action matches ChildAction::Finish(Some(out)) && out.status_success == ok
                    && out.stdout@ == bytes_or_empty(stdout) && out.stderr@ == bytes_or_empty(stderr),
                None => action matches ChildAction::Finish(None),
            },
            ChildEvent::Tick(flag) => (action is Cancel) == (flag == Some(true)) && !(action is Finish),
        },
{
    match ev {
        ChildEvent::Exited { success, stdout, stderr } => match success {
            Some(ok) => ChildAction::Finish(
                Some(
                    CancellableOutput {
                        status_success: ok,
                        stdout: bytes_or_default(stdout),
                        stderr: bytes_or_default(stderr),
                    },
                ),
            ),
            None => ChildAction::Finish(None),
        },
        ChildEvent::Tick(flag) => match flag {
            Some(true) => ChildAction::Cancel,
            _ => ChildAction::KeepWaiting,
        },
    }
}

/// A cancelled scan stops its child: once the flag is set, the next tick
/// kills it and no output is reported; without the flag the child runs on.
pub proof fn lemma_cancel_stops_child(flag: Option<bool>, action: ChildAction)
    requires
        child_action_for(ChildEvent::Tick(flag), action),
    ensures
        (flag == Some(true)) == (action is Cancel),
        !(action is Finish),
{
}

/// A child that exited with a known status is reported with exactly that
/// status, whatever it wrote to stdout or stderr, and with exactly what it
/// wrote (nothing for a failed reader); an unknown status reports nothing.
pub proof fn lemma_exit_reports_status(
    success: Option<bool>,
    stdout: Option<Vec<u8>>,
    stderr: Option<Vec<u8>>,
    action: ChildAction,
)
    requires
        child_action_for(ChildEvent::Exited { success, stdout, stderr }, action),
    ensures
        match success {
            Some(ok) => action matches ChildAction::Finish(Some(out)) && out.status_success == ok
                && out.stdout@ == (match stdout {
                Some(v) => v@,
                None => Seq::<u8>::empty(),
            }) && out.stderr@ == (match stderr {
                Some(v) => v@,
                None => Seq::<u8>::empty(),
            }),
            None => action matches ChildAction::Finish(None),
        },
{
}

} // verus!
