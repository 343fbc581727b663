use macaroon::supervisor::{
    KillError, KillOutcome, LaunchOutcome, Lifecycle, Probe, SidecarManager, SpawnError,
    StopAction, GRACE_BUDGET_MS, POLL_INTERVAL_MS,
};

fn running() -> SidecarManager {
    let mut manager = SidecarManager::new();
    assert_eq!(manager.spawn(LaunchOutcome::Started), Ok(()));
    manager
}

#[test]
fn new_manager_has_not_started() {
    let manager = SidecarManager::new();
    assert_eq!(manager.lifecycle, Lifecycle::NotStarted);
    assert!(manager.can_spawn());
    assert!(!manager.is_running(Probe::Alive));
}

#[test]
fn spawn_runs_only_on_a_successful_launch() {
    let mut manager = SidecarManager::new();
    assert_eq!(manager.spawn(LaunchOutcome::ExecutableMissing), Err(SpawnError::ExecutableMissing));
    assert_eq!(manager.lifecycle, Lifecycle::NotStarted);
    assert_eq!(manager.spawn(LaunchOutcome::Refused), Err(SpawnError::Refused));
    assert_eq!(manager.lifecycle, Lifecycle::NotStarted);
    assert_eq!(
        manager.spawn(LaunchOutcome::StreamsUnavailable),
        Err(SpawnError::StreamsUnavailable)
    );
    assert_eq!(manager.lifecycle, Lifecycle::NotStarted);
    assert_eq!(manager.spawn(LaunchOutcome::Started), Ok(()));
    assert_eq!(manager.lifecycle, Lifecycle::Running);
}

#[test]
fn spawn_is_refused_while_a_process_is_live() {
    let mut manager = running();
    assert!(!manager.can_spawn());
    assert_eq!(manager.spawn(LaunchOutcome::Started), Err(SpawnError::AlreadyRunning));
    assert_eq!(manager.lifecycle, Lifecycle::Running);
    manager.stop();
    assert_eq!(manager.spawn(LaunchOutcome::Started), Err(SpawnError::AlreadyRunning));
    assert_eq!(manager.lifecycle, Lifecycle::Stopping);
    manager.after_probe(Probe::Exited);
    assert!(manager.can_spawn());
    assert_eq!(manager.spawn(LaunchOutcome::Started), Ok(()));
}

#[test]
fn is_running_fails_safe() {
    let manager = running();
    assert!(manager.is_running(Probe::Alive));
    assert!(!manager.is_running(Probe::Exited));
    assert!(!manager.is_running(Probe::Failed));
}

#[test]
fn two_stops_send_one_terminate() {
    let mut manager = running();
    let actions = [manager.stop(), manager.stop()];
    assert_eq!(actions[0], StopAction::Terminate);
    assert_eq!(actions[1], StopAction::Finished);
    assert_eq!(actions.iter().filter(|a| **a == StopAction::Terminate).count(), 1);
    assert_eq!(manager.lifecycle, Lifecycle::Stopping);
}

#[test]
fn stop_without_a_process_finishes_at_once() {
    let mut manager = SidecarManager::new();
    assert_eq!(manager.stop(), StopAction::Finished);
    assert_eq!(manager.lifecycle, Lifecycle::NotStarted);
    assert_eq!(manager.after_probe(Probe::Alive), StopAction::Finished);
    assert_eq!(manager.after_kill(KillOutcome::KillFailed), Ok(()));
    assert_eq!(manager.lifecycle, Lifecycle::NotStarted);
}

#[test]
fn graceful_exit_ends_the_stop() {
    let mut manager = running();
    assert_eq!(manager.stop(), StopAction::Terminate);
    assert_eq!(manager.after_probe(Probe::Alive), StopAction::Wait);
    assert_eq!(manager.after_probe(Probe::Alive), StopAction::Wait);
    assert_eq!(manager.after_probe(Probe::Exited), StopAction::Finished);
    assert_eq!(manager.lifecycle, Lifecycle::Stopped);
    assert_eq!(manager.waited_ms, 300);
    assert_eq!(manager.stop(), StopAction::Finished);
}

#[test]
fn stubborn_process_is_killed_after_the_budget() {
    assert_eq!(POLL_INTERVAL_MS, 100);
    assert_eq!(GRACE_BUDGET_MS, 2000);
    let mut manager = running();
    assert_eq!(manager.stop(), StopAction::Terminate);
    for poll in 1..20u64 {
        assert_eq!(manager.after_probe(Probe::Alive), StopAction::Wait);
        assert_eq!(manager.waited_ms, poll * 100);
    }
    assert_eq!(manager.after_probe(Probe::Alive), StopAction::ForceKill);
    assert_eq!(manager.waited_ms, 2000);
    assert_eq!(manager.lifecycle, Lifecycle::Stopping);
    assert_eq!(manager.after_kill(KillOutcome::Reaped), Ok(()));
    assert_eq!(manager.lifecycle, Lifecycle::Stopped);
}

#[test]
fn failed_poll_leads_to_the_kill() {
    let mut manager = running();
    manager.stop();
    assert_eq!(manager.after_probe(Probe::Failed), StopAction::ForceKill);
    assert_eq!(manager.lifecycle, Lifecycle::Stopping);
}

#[test]
fn failed_kill_is_reported_and_the_process_counts_as_stopped() {
    let mut manager = running();
    manager.stop();
    manager.after_probe(Probe::Failed);
    assert_eq!(manager.after_kill(KillOutcome::KillFailed), Err(KillError::KillFailed));
    assert_eq!(manager.lifecycle, Lifecycle::Stopped);

    let mut manager = running();
    manager.stop();
    manager.after_probe(Probe::Failed);
    assert_eq!(manager.after_kill(KillOutcome::WaitFailed), Err(KillError::WaitFailed));
    assert_eq!(manager.lifecycle, Lifecycle::Stopped);
}
