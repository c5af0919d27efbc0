//! The restart confirmation protocol as an explicit state machine.
//!
//! Daemon shutdown and startup are asynchronous effects in a separate OS
//! process with no acknowledgment channel back to the launcher, so a restart
//! is confirmed by polling the process table: record the running daemon's pid
//! (if any), ask it to stop, poll until it is gone, ask for a start, poll
//! until a daemon is seen again, and verify that the observed pid differs
//! from the recorded one. Both polling phases are bounded; exhausting a bound
//! is a distinct timeout failure rather than an indefinite hang.
//!
//! The machine itself performs no I/O. A driver performs each requested
//! action (probe the process table, invoke the external stop or start action,
//! or sleep one interval and probe) and feeds the outcome back as an event.

use vstd::prelude::*;

verus! {

/// How many times a stop is re-polled before the restart fails with a
/// timeout.
pub const MAX_STOP_POLLS: u32 = 20;

/// How many times a start is re-polled before the restart fails with a
/// timeout.
pub const MAX_START_POLLS: u32 = 20;

/// Seconds a driver waits between two polls of the process table.
pub const POLL_INTERVAL_SECS: u64 = 3;

/// A fresh snapshot of the daemon's process-table state: whether a daemon
/// process is running and, when one is, its pid. A probe that finds no
/// daemon reports not running with no pid.
#[derive(Clone, Copy, Debug, PartialEq, Eq)]
pub struct DaemonProcessInfo {
    pub is_running: bool,
    pub pid: Option<u64>,
}

/// Failures of a lifecycle action: the external start or stop action could
/// not be launched; a bounded polling phase was exhausted; or the pid seen
/// after a restart equals the pid recorded before it, meaning the old
/// process never died.
#[derive(Clone, Copy, Debug, PartialEq, Eq)]
pub enum LaunchError {
    SpawnFailed,
    Timeout,
    StalePid,
}

/// The state of one restart in progress.
#[derive(Clone, Copy, Debug, PartialEq, Eq)]
pub enum RestartState {
    /// Nothing observed yet; the first probe decides the path.
    Idle,
    /// The old daemon was seen running as `old_pid`; the external stop action
    /// is owed.
    StopRequested { old_pid: u64 },
    /// The stop action completed; polling until the old daemon is gone, with
    /// `polls_left` further polls allowed.
    WaitingForStop { old_pid: u64, polls_left: u32 },
    /// No daemon runs; the external start action is owed. `old_pid` is the
    /// recorded pre-restart pid, if one was seen.
    StartRequested { old_pid: Option<u64> },
    /// The start action completed; polling until a daemon is seen, with
    /// `polls_left` further polls allowed.
    WaitingForStart { old_pid: Option<u64>, polls_left: u32 },
    /// Success: a daemon runs as `pid`, and `pid` differs from any recorded
    /// pre-restart pid.
    Running { pid: u64 },
    /// The restart failed; the error says how.
    Failed { error: LaunchError },
}

/// What a driver reports back to the machine: a process-table snapshot, or
/// the outcome of one external stop or start action (`ok` is false when the
/// action could not be launched or itself failed).
#[derive(Clone, Copy, Debug, PartialEq, Eq)]
pub enum RestartEvent {
    Probed { info: DaemonProcessInfo },
    StopOutcome { ok: bool },
    StartOutcome { ok: bool },
}

/// What the machine asks of its driver next.
#[derive(Clone, Copy, Debug, PartialEq, Eq, Structural)]
pub enum RestartAction {
    /// Probe the process table now and report the snapshot.
    Probe,
    /// Invoke the external stop action and report its outcome.
    InvokeStop,
    /// Invoke the external start action and report its outcome.
    InvokeStart,
    /// Wait one poll interval, then probe and report the snapshot.
    SleepAndProbe,
    /// Terminal: the restart succeeded or failed; no further events.
    Finish,
}

/// Whether a snapshot observes a running daemon (one with a pid; a snapshot
/// claiming to run without a pid identifies no process and counts as not
/// running).
pub open spec fn observes_running(info: DaemonProcessInfo) -> bool {
    info.is_running && info.pid is Some
}

/// Whether the machine has finished, successfully or not.
pub open spec fn is_terminal(s: RestartState) -> bool {
    match s {
        RestartState::Running { .. } => true,
        RestartState::Failed { .. } => true,
        _ => false,
    }
}

/// The action a state owes its driver.
pub open spec fn spec_expected_action(s: RestartState) -> RestartAction {
    match s {
        RestartState::Idle => RestartAction::Probe,
        RestartState::StopRequested { .. } => RestartAction::InvokeStop,
        RestartState::WaitingForStop { .. } => RestartAction::SleepAndProbe,
        RestartState::StartRequested { .. } => RestartAction::InvokeStart,
        RestartState::WaitingForStart { .. } => RestartAction::SleepAndProbe,
        RestartState::Running { .. } => RestartAction::Finish,
        RestartState::Failed { .. } => RestartAction::Finish,
    }
}

/// One transition of the restart machine. An event that is not the answer to
/// the owed action leaves the state unchanged.
pub open spec fn spec_step(s: RestartState, e: RestartEvent) -> RestartState {
    match (s, e) {
        (RestartState::Idle, RestartEvent::Probed { info }) => {
            match info.pid {
                Some(p) => if info.is_running {
                    RestartState::StopRequested { old_pid: p }
                } else {
                    RestartState::StartRequested { old_pid: None }
                },
                None => RestartState::StartRequested { old_pid: None },
            }
        },
        (RestartState::StopRequested { old_pid }, RestartEvent::StopOutcome { ok }) => {
            if ok {
                RestartState::WaitingForStop { old_pid, polls_left: MAX_STOP_POLLS }
            } else {
                RestartState::Failed { error: LaunchError::SpawnFailed }
            }
        },
        (RestartState::WaitingForStop { old_pid, polls_left }, RestartEvent::Probed { info }) => {
            if observes_running(info) {
                if polls_left == 0 {
                    RestartState::Failed { error: LaunchError::Timeout }
                } else {
                    RestartState::WaitingForStop { old_pid, polls_left: (polls_left - 1) as u32 }
                }
            } else {
                RestartState::StartRequested { old_pid: Some(old_pid) }
            }
        },
        (RestartState::StartRequested { old_pid }, RestartEvent::StartOutcome { ok }) => {
            if ok {
                RestartState::WaitingForStart { old_pid, polls_left: MAX_START_POLLS }
            } else {
                RestartState::Failed { error: LaunchError::SpawnFailed }
            }
        },
        (RestartState::WaitingForStart { old_pid, polls_left }, RestartEvent::Probed { info }) => {
            match info.pid {
                Some(q) if info.is_running => {
                    if old_pid == Some(q) {
                        RestartState::Failed { error: LaunchError::StalePid }
                    } else {
                        RestartState::Running { pid: q }
                    }
                },
                _ => {
                    if polls_left == 0 {
                        RestartState::Failed { error: LaunchError::Timeout }
                    } else {
                        RestartState::WaitingForStart {
                            old_pid,
                            polls_left: (polls_left - 1) as u32,
                        }
                    }
                },
            }
        },
        _ => s,
    }
}

/// The state after feeding a sequence of events, first event first.
pub open spec fn spec_run(s: RestartState, events: Seq<RestartEvent>) -> RestartState
    decreases events.len(),
{
    if events.len() == 0 {
        s
    } else {
        spec_run(spec_step(s, events[0]), events.drop_first())
    }
}

/// A fresh restart: idle, owing the driver a first probe.
pub fn restart_init() -> (r: (RestartState, RestartAction))
    ensures
        r.0 == RestartState::Idle,
        r.1 == spec_expected_action(r.0),
{
    (RestartState::Idle, RestartAction::Probe)
}

/// Performs one transition, returning the next state and the action the
/// driver owes it.
pub fn restart_step(s: &RestartState, e: &RestartEvent) -> (r: (RestartState, RestartAction))
    ensures
        r.0 == spec_step(*s, *e),
        r.1 == spec_expected_action(r.0),
{
    let next = match (s, e) {
        (RestartState::Idle, RestartEvent::Probed { info }) => {
            match info.pid {
                Some(p) => if info.is_running {
                    RestartState::StopRequested { old_pid: p }
                } else {
                    RestartState::StartRequested { old_pid: None }
                },
                None => RestartState::StartRequested { old_pid: None },
            }
        },
        (RestartState::StopRequested { old_pid }, RestartEvent::StopOutcome { ok }) => {
            if *ok {
                RestartState::WaitingForStop { old_pid: *old_pid, polls_left: MAX_STOP_POLLS }
            } else {
                RestartState::Failed { error: LaunchError::SpawnFailed }
            }
        },
        (RestartState::WaitingForStop { old_pid, polls_left }, RestartEvent::Probed { info }) => {
            if info.is_running && info.pid.is_some() {
                if *polls_left == 0 {
                    RestartState::Failed { error: LaunchError::Timeout }
                } else {
                    RestartState::WaitingForStop { old_pid: *old_pid, polls_left: *polls_left - 1 }
                }
            } else {
                RestartState::StartRequested { old_pid: Some(*old_pid) }
            }
        },
        (RestartState::StartRequested { old_pid }, RestartEvent::StartOutcome { ok }) => {
            if *ok {
                RestartState::WaitingForStart { old_pid: *old_pid, polls_left: MAX_START_POLLS }
            } else {
                RestartState::Failed { error: LaunchError::SpawnFailed }
            }
        },
        (RestartState::WaitingForStart { old_pid, polls_left }, RestartEvent::Probed { info }) => {
            match info.pid {
                Some(q) if info.is_running => {
                    let stale = match old_pid {
                        Some(p) => *p == q,
                        None => false,
                    };
                    if stale {
                        RestartState::Failed { error: LaunchError::StalePid }
                    } else {
                        RestartState::Running { pid: q }
                    }
                },
                _ => {
                    if *polls_left == 0 {
                        RestartState::Failed { error: LaunchError::Timeout }
                    } else {
                        RestartState::WaitingForStart {
                            old_pid: *old_pid,
                            polls_left: *polls_left - 1,
                        }
                    }
                },
            }
        },
        _ => *s,
    };
    let action = match next {
        RestartState::Idle => RestartAction::Probe,
        RestartState::StopRequested { .. } => RestartAction::InvokeStop,
        RestartState::WaitingForStop { .. } => RestartAction::SleepAndProbe,
        RestartState::StartRequested { .. } => RestartAction::InvokeStart,
        RestartState::WaitingForStart { .. } => RestartAction::SleepAndProbe,
        RestartState::Running { .. } => RestartAction::Finish,
        RestartState::Failed { .. } => RestartAction::Finish,
    };
    (next, action)
}

/// The exit indicator of a finished restart: zero exactly on success.
pub fn restart_exit_code(s: &RestartState) -> (c: i32)
    ensures
        (c == 0) <==> (*s matches RestartState::Running { .. }),
{
    match s {
        RestartState::Running { .. } => 0,
        _ => 1,
    }
}

/// A terminal state absorbs every further event.
pub proof fn lemma_run_terminal_stays(s: RestartState, events: Seq<RestartEvent>)
    requires
        is_terminal(s),
    ensures
        spec_run(s, events) == s,
    decreases events.len(),
{
    if events.len() > 0 {
        lemma_run_terminal_stays(s, events.drop_first());
    }
}

/// Restart idempotence of intent: when the first probe finds no daemon
/// running, the machine skips the stop phase and asks for a start at once;
/// once the start action completes and a probe observes a running daemon,
/// the restart has succeeded.
pub proof fn lemma_restart_when_not_running(info0: DaemonProcessInfo, info1: DaemonProcessInfo)
    requires
        !info0.is_running,
        observes_running(info1),
    ensures
        ({
            let s1 = spec_step(RestartState::Idle, RestartEvent::Probed { info: info0 });
            let s2 = spec_step(s1, RestartEvent::StartOutcome { ok: true });
            let s3 = spec_step(s2, RestartEvent::Probed { info: info1 });
            &&& s1 == (RestartState::StartRequested { old_pid: None::<u64> })
            &&& spec_expected_action(s1) == RestartAction::InvokeStart
            &&& s3 == (RestartState::Running { pid: info1.pid->Some_0 })
        }),
{
}

/// Whether a state carries the record that the pre-restart daemon ran as
/// `p` — and, once terminal, that success can only report a different pid.
pub open spec fn records_old_pid(s: RestartState, p: u64) -> bool {
    match s {
        RestartState::Idle => false,
        RestartState::StopRequested { old_pid } => old_pid == p,
        RestartState::WaitingForStop { old_pid, .. } => old_pid == p,
        RestartState::StartRequested { old_pid } => old_pid == Some(p),
        RestartState::WaitingForStart { old_pid, .. } => old_pid == Some(p),
        RestartState::Running { pid } => pid != p,
        RestartState::Failed { .. } => true,
    }
}

proof fn lemma_run_preserves_records(s: RestartState, p: u64, events: Seq<RestartEvent>)
    requires
        records_old_pid(s, p),
    ensures
        records_old_pid(spec_run(s, events), p),
    decreases events.len(),
{
    if events.len() > 0 {
        lemma_run_preserves_records(spec_step(s, events[0]), p, events.drop_first());
    }
}

/// Restart identity: a restart whose first probe observed the old daemon
/// running as `p`, and which then ran to successful completion, reports a
/// pid other than `p`. In particular, after two consecutive restarts the pid
/// observed by the second differs from the pid the first left running.
pub proof fn lemma_restart_changes_pid(
    info: DaemonProcessInfo,
    p: u64,
    events: Seq<RestartEvent>,
    q: u64,
)
    requires
        info.is_running,
        info.pid == Some(p),
        spec_run(spec_step(RestartState::Idle, RestartEvent::Probed { info }), events)
            == (RestartState::Running { pid: q }),
    ensures
        q != p,
{
    let s1 = spec_step(RestartState::Idle, RestartEvent::Probed { info });
    lemma_run_preserves_records(s1, p, events);
}

/// Whether an event is a probe that still observes a running daemon.
pub open spec fn is_still_running_probe(e: RestartEvent) -> bool {
    match e {
        RestartEvent::Probed { info } => observes_running(info),
        _ => false,
    }
}

/// Bounded stop confirmation: while waiting for the old daemon to stop, a
/// driver that keeps observing a running daemon exhausts the allowed polls
/// after at most `polls_left + 1` further probes, and the restart then fails
/// with a timeout — the machine cannot poll forever.
pub proof fn lemma_stop_polling_times_out(
    old_pid: u64,
    polls_left: u32,
    events: Seq<RestartEvent>,
)
    requires
        events.len() > polls_left,
        forall|i: int| 0 <= i < events.len() ==> is_still_running_probe(#[trigger] events[i]),
    ensures
        spec_run(RestartState::WaitingForStop { old_pid, polls_left }, events)
            == (RestartState::Failed { error: LaunchError::Timeout }),
    decreases events.len(),
{
    let s = RestartState::WaitingForStop { old_pid, polls_left };
    if polls_left == 0 {
        lemma_run_terminal_stays(spec_step(s, events[0]), events.drop_first());
    } else {
        lemma_stop_polling_times_out(old_pid, (polls_left - 1) as u32, events.drop_first());
    }
}

} // verus!
