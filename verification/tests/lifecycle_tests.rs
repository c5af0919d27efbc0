use daemon_launcher::lifecycle::{restart_exit_code, restart_init, restart_step};
use daemon_launcher::lifecycle::{DaemonProcessInfo, LaunchError, RestartAction, RestartEvent, RestartState};
use daemon_launcher::lifecycle::{MAX_START_POLLS, MAX_STOP_POLLS, POLL_INTERVAL_SECS};

fn running(pid: u64) -> DaemonProcessInfo {
    DaemonProcessInfo { is_running: true, pid: Some(pid) }
}

fn not_running() -> DaemonProcessInfo {
    DaemonProcessInfo { is_running: false, pid: None }
}

#[test]
fn restart_with_no_daemon_takes_start_only_path() {
    let (s, a) = restart_init();
    assert_eq!(a, RestartAction::Probe);
    let (s, a) = restart_step(&s, &RestartEvent::Probed { info: not_running() });
    assert_eq!(s, RestartState::StartRequested { old_pid: None });
    assert_eq!(a, RestartAction::InvokeStart);
    let (s, a) = restart_step(&s, &RestartEvent::StartOutcome { ok: true });
    assert_eq!(a, RestartAction::SleepAndProbe);
    let (s, a) = restart_step(&s, &RestartEvent::Probed { info: running(42) });
    assert_eq!(s, RestartState::Running { pid: 42 });
    assert_eq!(a, RestartAction::Finish);
    assert_eq!(restart_exit_code(&s), 0);
}

#[test]
fn restart_with_running_daemon_stops_then_starts() {
    let (s, _) = restart_init();
    let (s, a) = restart_step(&s, &RestartEvent::Probed { info: running(10) });
    assert_eq!(s, RestartState::StopRequested { old_pid: 10 });
    assert_eq!(a, RestartAction::InvokeStop);
    let (s, a) = restart_step(&s, &RestartEvent::StopOutcome { ok: true });
    assert_eq!(a, RestartAction::SleepAndProbe);
    // the old daemon lingers for one poll, then is gone
    let (s, a) = restart_step(&s, &RestartEvent::Probed { info: running(10) });
    assert_eq!(a, RestartAction::SleepAndProbe);
    let (s, a) = restart_step(&s, &RestartEvent::Probed { info: not_running() });
    assert_eq!(s, RestartState::StartRequested { old_pid: Some(10) });
    assert_eq!(a, RestartAction::InvokeStart);
    let (s, _) = restart_step(&s, &RestartEvent::StartOutcome { ok: true });
    let (s, a) = restart_step(&s, &RestartEvent::Probed { info: running(11) });
    assert_eq!(s, RestartState::Running { pid: 11 });
    assert_eq!(a, RestartAction::Finish);
    assert_eq!(restart_exit_code(&s), 0);
}

#[test]
fn two_consecutive_restarts_observe_different_pids() {
    // first restart: no daemon, comes up as pid 100
    let (s, _) = restart_init();
    let (s, _) = restart_step(&s, &RestartEvent::Probed { info: not_running() });
    let (s, _) = restart_step(&s, &RestartEvent::StartOutcome { ok: true });
    let (s, _) = restart_step(&s, &RestartEvent::Probed { info: running(100) });
    let first_pid = match s {
        RestartState::Running { pid } => pid,
        _ => panic!("first restart did not succeed"),
    };

    // second restart: observes pid 100 running; success requires a new pid
    let (s, _) = restart_init();
    let (s, _) = restart_step(&s, &RestartEvent::Probed { info: running(first_pid) });
    let (s, _) = restart_step(&s, &RestartEvent::StopOutcome { ok: true });
    let (s, _) = restart_step(&s, &RestartEvent::Probed { info: not_running() });
    let (s, _) = restart_step(&s, &RestartEvent::StartOutcome { ok: true });
    let (s, _) = restart_step(&s, &RestartEvent::Probed { info: running(101) });
    match s {
        RestartState::Running { pid } => assert_ne!(pid, first_pid),
        _ => panic!("second restart did not succeed"),
    }
}

#[test]
fn unchanged_pid_after_restart_is_stale() {
    let (s, _) = restart_init();
    let (s, _) = restart_step(&s, &RestartEvent::Probed { info: running(10) });
    let (s, _) = restart_step(&s, &RestartEvent::StopOutcome { ok: true });
    let (s, _) = restart_step(&s, &RestartEvent::Probed { info: not_running() });
    let (s, _) = restart_step(&s, &RestartEvent::StartOutcome { ok: true });
    let (s, a) = restart_step(&s, &RestartEvent::Probed { info: running(10) });
    assert_eq!(s, RestartState::Failed { error: LaunchError::StalePid });
    assert_eq!(a, RestartAction::Finish);
    assert_ne!(restart_exit_code(&s), 0);
}

#[test]
fn stop_confirmation_times_out_instead_of_hanging() {
    let (s, _) = restart_init();
    let (s, _) = restart_step(&s, &RestartEvent::Probed { info: running(10) });
    let (mut s, _) = restart_step(&s, &RestartEvent::StopOutcome { ok: true });
    let mut steps: u32 = 0;
    loop {
        let (next, action) = restart_step(&s, &RestartEvent::Probed { info: running(10) });
        s = next;
        steps += 1;
        if action == RestartAction::Finish {
            break;
        }
        assert!(steps <= MAX_STOP_POLLS + 1, "machine kept polling past its bound");
    }
    assert_eq!(s, RestartState::Failed { error: LaunchError::Timeout });
    assert_eq!(steps, MAX_STOP_POLLS + 1);
}

#[test]
fn start_confirmation_times_out_instead_of_hanging() {
    let (s, _) = restart_init();
    let (s, _) = restart_step(&s, &RestartEvent::Probed { info: not_running() });
    let (mut s, _) = restart_step(&s, &RestartEvent::StartOutcome { ok: true });
    let mut steps: u32 = 0;
    loop {
        let (next, action) = restart_step(&s, &RestartEvent::Probed { info: not_running() });
        s = next;
        steps += 1;
        if action == RestartAction::Finish {
            break;
        }
        assert!(steps <= MAX_START_POLLS + 1, "machine kept polling past its bound");
    }
    assert_eq!(s, RestartState::Failed { error: LaunchError::Timeout });
    assert_ne!(restart_exit_code(&s), 0);
}

#[test]
fn failed_stop_action_is_spawn_failure() {
    let (s, _) = restart_init();
    let (s, _) = restart_step(&s, &RestartEvent::Probed { info: running(10) });
    let (s, a) = restart_step(&s, &RestartEvent::StopOutcome { ok: false });
    assert_eq!(s, RestartState::Failed { error: LaunchError::SpawnFailed });
    assert_eq!(a, RestartAction::Finish);
    assert_ne!(restart_exit_code(&s), 0);
}

#[test]
fn failed_start_action_is_spawn_failure() {
    let (s, _) = restart_init();
    let (s, _) = restart_step(&s, &RestartEvent::Probed { info: not_running() });
    let (s, _) = restart_step(&s, &RestartEvent::StartOutcome { ok: false });
    assert_eq!(s, RestartState::Failed { error: LaunchError::SpawnFailed });
}

#[test]
fn terminal_states_absorb_events() {
    let done = RestartState::Running { pid: 7 };
    let (s, a) = restart_step(&done, &RestartEvent::Probed { info: not_running() });
    assert_eq!(s, done);
    assert_eq!(a, RestartAction::Finish);
    let failed = RestartState::Failed { error: LaunchError::Timeout };
    let (s, _) = restart_step(&failed, &RestartEvent::StartOutcome { ok: true });
    assert_eq!(s, failed);
}

#[test]
fn poll_interval_is_three_seconds() {
    assert_eq!(POLL_INTERVAL_SECS, 3);
}
