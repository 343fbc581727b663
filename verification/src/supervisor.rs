//! Lifecycle of the helper process.
//!
//! The supervisor decides; the program around it acts. Each function takes
//! what was observed of the process and says what to do next, so that the
//! escalation from a graceful request to a forced kill is fixed here, and the
//! signal, the sleep and the poll happen outside.
use vstd::prelude::*;

verus! {

/// Time between two liveness polls while the process is asked to stop.
pub const POLL_INTERVAL_MS: u64 = 100;

/// Time the process is given to exit on its own before it is killed.
pub const GRACE_BUDGET_MS: u64 = 2000;

/// Where the helper process stands.
#[derive(Clone, Copy, Debug, PartialEq, Eq, Structural)]
pub enum Lifecycle {
    NotStarted,
    Running,
    Stopping,
    Stopped,
}

/// What an attempt to launch the helper process came to.
#[derive(Clone, Copy, Debug, PartialEq, Eq, Structural)]
pub enum LaunchOutcome {
    /// The process runs and both of its output streams are captured.
    Started,
    /// No executable was found where it was looked for.
    ExecutableMissing,
    /// The operating system refused to launch the executable.
    Refused,
    /// The process was launched but an output stream could not be captured.
    StreamsUnavailable,
}

/// Why the helper process could not be started.
#[derive(Clone, Copy, Debug, PartialEq, Eq, Structural)]
pub enum SpawnError {
    AlreadyRunning,
    ExecutableMissing,
    Refused,
    StreamsUnavailable,
}

/// What a non-blocking liveness poll found.
#[derive(Clone, Copy, Debug, PartialEq, Eq, Structural)]
pub enum Probe {
    Exited,
    Alive,
    Failed,
}

/// What the caller of the stop sequence does next.
#[derive(Clone, Copy, Debug, PartialEq, Eq, Structural)]
pub enum StopAction {
    /// Nothing is left to do: report success.
    Finished,
    /// Send the graceful-terminate request, then wait one poll interval, poll
    /// and report the probe.
    Terminate,
    /// Wait one poll interval, poll and report the probe.
    Wait,
    /// Kill the process, block until it has exited and report the outcome.
    ForceKill,
}

/// What the forced kill came to.
#[derive(Clone, Copy, Debug, PartialEq, Eq, Structural)]
pub enum KillOutcome {
    Reaped,
    KillFailed,
    WaitFailed,
}

/// Why the forced kill did not succeed.
#[derive(Clone, Copy, Debug, PartialEq, Eq, Structural)]
pub enum KillError {
    KillFailed,
    WaitFailed,
}

/// Supervisor of the helper process. At most one process is live at a time,
/// and the handle to it is given up exactly once.
#[derive(Clone, Copy, Debug, PartialEq, Eq, Structural)]
pub struct SidecarManager {
    pub lifecycle: Lifecycle,
    /// Time waited since the terminate request, in milliseconds.
    pub waited_ms: u64,
}

/// A launch is acceptable while no process is live.
pub open spec fn may_launch(l: Lifecycle) -> bool {
    l is NotStarted || l is Stopped
}

/// The result of recording a launch attempt.
pub open spec fn spawn_result(l: Lifecycle, outcome: LaunchOutcome) -> Result<(), SpawnError> {
    if !may_launch(l) {
        Err(SpawnError::AlreadyRunning)
    } else {
        match outcome {
            LaunchOutcome::Started => Ok(()),
            LaunchOutcome::ExecutableMissing => Err(SpawnError::ExecutableMissing),
            LaunchOutcome::Refused => Err(SpawnError::Refused),
            LaunchOutcome::StreamsUnavailable => Err(SpawnError::StreamsUnavailable),
        }
    }
}

/// The supervisor after the first step of a stop.
pub open spec fn after_stop(m: SidecarManager) -> SidecarManager {
    if m.lifecycle is Running {
        SidecarManager { lifecycle: Lifecycle::Stopping, waited_ms: 0 }
    } else {
        m
    }
}

/// What the first step of a stop asks for.
pub open spec fn stop_action(m: SidecarManager) -> StopAction {
    if m.lifecycle is Running {
        StopAction::Terminate
    } else {
        StopAction::Finished
    }
}

/// The time waited after one more poll interval, never beyond the budget.
pub open spec fn waited_after_poll(waited_ms: u64) -> u64 {
    if waited_ms + POLL_INTERVAL_MS >= GRACE_BUDGET_MS {
        GRACE_BUDGET_MS
    } else {
        (waited_ms + POLL_INTERVAL_MS) as u64
    }
}

/// What a probe asks for while the process is stopping.
pub open spec fn probe_action(m: SidecarManager, probe: Probe) -> StopAction {
    if !(m.lifecycle is Stopping) {
        StopAction::Finished
    } else {
        match probe {
            Probe::Exited => StopAction::Finished,
            Probe::Alive => if waited_after_poll(m.waited_ms) < GRACE_BUDGET_MS {
                StopAction::Wait
            } else {
                StopAction::ForceKill
            },
            Probe::Failed => StopAction::ForceKill,
        }
    }
}

/// The supervisor after a probe.
pub open spec fn after_probe_step(m: SidecarManager, probe: Probe) -> SidecarManager {
    if !(m.lifecycle is Stopping) {
        m
    } else {
        SidecarManager {
            lifecycle: if probe is Exited {
                Lifecycle::Stopped
            } else {
                Lifecycle::Stopping
            },
            waited_ms: waited_after_poll(m.waited_ms),
        }
    }
}

/// The result of the stop after the forced kill.
pub open spec fn kill_result(m: SidecarManager, outcome: KillOutcome) -> Result<(), KillError> {
    if !(m.lifecycle is Stopping) {
        Ok(())
    } else {
        match outcome {
            KillOutcome::Reaped => Ok(()),
            KillOutcome::KillFailed => Err(KillError::KillFailed),
            KillOutcome::WaitFailed => Err(KillError::WaitFailed),
        }
    }
}

/// The supervisor after the forced kill.
pub open spec fn after_kill_step(m: SidecarManager) -> SidecarManager {
    if m.lifecycle is Stopping {
        SidecarManager { lifecycle: Lifecycle::Stopped, ..m }
    } else {
        m
    }
}

impl SidecarManager {
    /// A supervisor that has not started anything.
    pub fn new() -> (m: SidecarManager)
        ensures
            m == (SidecarManager { lifecycle: Lifecycle::NotStarted, waited_ms: 0 }),
    {
        SidecarManager { lifecycle: Lifecycle::NotStarted, waited_ms: 0 }
    }

    /// Whether a launch may be attempted: not while a process is live.
    pub fn can_spawn(&self) -> (yes: bool)
        ensures
            yes == may_launch(self.lifecycle),
    {
        match self.lifecycle {
            Lifecycle::NotStarted => true,
            Lifecycle::Stopped => true,
            _ => false,
        }
    }

    /// Records a launch attempt. The supervisor runs a process exactly when
    /// none was live and the launch succeeded; every failure leaves it as it
    /// was, so that the caller can go on without live data.
    pub fn spawn(&mut self, outcome: LaunchOutcome) -> (result: Result<(), SpawnError>)
        ensures
            result == spawn_result(old(self).lifecycle, outcome),
            result is Ok ==> *final(self) == (SidecarManager {
                lifecycle: Lifecycle::Running,
                waited_ms: 0,
            }),
            result is Err ==> *final(self) == *old(self),
    {
        if !self.can_spawn() {
            return Err(SpawnError::AlreadyRunning);
        }
        match outcome {
            LaunchOutcome::Started => {
                self.lifecycle = Lifecycle::Running;
                self.waited_ms = 0;
                Ok(())
            },
            LaunchOutcome::ExecutableMissing => Err(SpawnError::ExecutableMissing),
            LaunchOutcome::Refused => Err(SpawnError::Refused),
            LaunchOutcome::StreamsUnavailable => Err(SpawnError::StreamsUnavailable),
        }
    }

    /// Whether the process is running, given what a poll found. A poll that
    /// failed counts as not running.
    pub fn is_running(&self, probe: Probe) -> (running: bool)
        ensures
            running == (self.lifecycle is Running && probe is Alive),
    {
        match (self.lifecycle, probe) {
            (Lifecycle::Running, Probe::Alive) => true,
            _ => false,
        }
    }

    /// First step of a stop: gives the handle up. Only the call that finds the
    /// process running is told to terminate it; every other call is told that
    /// nothing is left to do, and changes nothing.
    pub fn stop(&mut self) -> (action: StopAction)
        ensures
            *final(self) == after_stop(*old(self)),
            action == stop_action(*old(self)),
    {
        match self.lifecycle {
            Lifecycle::Running => {
                self.lifecycle = Lifecycle::Stopping;
                self.waited_ms = 0;
                StopAction::Terminate
            },
            _ => StopAction::Finished,
        }
    }

    /// Next step of a stop, after one poll interval and a poll. A process that
    /// has exited ends the stop; one that is alive is waited for while the
    /// budget lasts and killed when it is used up; a poll that failed leads to
    /// the kill at once.
    pub fn after_probe(&mut self, probe: Probe) -> (action: StopAction)
        ensures
            *final(self) == after_probe_step(*old(self), probe),
            action == probe_action(*old(self), probe),
    {
        match self.lifecycle {
            Lifecycle::Stopping => {},
            _ => {
                return StopAction::Finished;
            },
        }
        let waited: u64 = if self.waited_ms >= GRACE_BUDGET_MS - POLL_INTERVAL_MS {
            GRACE_BUDGET_MS
        } else {
            self.waited_ms + POLL_INTERVAL_MS
        };
        self.waited_ms = waited;
        match probe {
            Probe::Exited => {
                self.lifecycle = Lifecycle::Stopped;
                StopAction::Finished
            },
            Probe::Alive => if waited < GRACE_BUDGET_MS {
                StopAction::Wait
            } else {
                StopAction::ForceKill
            },
            Probe::Failed => StopAction::ForceKill,
        }
    }

    /// Last step of a stop, after the forced kill. The process counts as
    /// stopped whatever the outcome; a kill or a wait that failed is reported.
    pub fn after_kill(&mut self, outcome: KillOutcome) -> (result: Result<(), KillError>)
        ensures
            *final(self) == after_kill_step(*old(self)),
            result == kill_result(*old(self), outcome),
    {
        match self.lifecycle {
            Lifecycle::Stopping => {},
            _ => {
                return Ok(());
            },
        }
        self.lifecycle = Lifecycle::Stopped;
        match outcome {
            KillOutcome::Reaped => Ok(()),
            KillOutcome::KillFailed => Err(KillError::KillFailed),
            KillOutcome::WaitFailed => Err(KillError::WaitFailed),
        }
    }
}

/// The supervisor after `polls` probes that all found the process alive.
pub open spec fn after_alive_probes(m: SidecarManager, polls: nat) -> SidecarManager
    decreases polls,
{
    if polls == 0 {
        m
    } else {
        after_probe_step(after_alive_probes(m, (polls - 1) as nat), Probe::Alive)
    }
}

/// A stop is idempotent: of two calls, whichever context each comes from, the
/// first is told to terminate the process exactly when it was running, and
/// the second is told that nothing is left to do and changes nothing. So one
/// terminate request is sent for a running process, and none otherwise.
pub proof fn lemma_stop_takes_once(m: SidecarManager)
    ensures
        stop_action(m) == StopAction::Terminate <==> m.lifecycle is Running,
        stop_action(m) == StopAction::Terminate || stop_action(m) == StopAction::Finished,
        stop_action(after_stop(m)) == StopAction::Finished,
        after_stop(after_stop(m)) == after_stop(m),
        !(after_stop(m).lifecycle is Running),
{
}

/// While the process stays alive, every probe before the twentieth asks to
/// wait, and the twentieth, two seconds after the terminate request, asks for
/// the kill.
pub proof fn lemma_grace_budget(m: SidecarManager, polls: nat)
    requires
        m.lifecycle is Running,
        polls < 20,
    ensures
        after_alive_probes(after_stop(m), polls).lifecycle is Stopping,
        after_alive_probes(after_stop(m), polls).waited_ms == polls * POLL_INTERVAL_MS,
        probe_action(after_alive_probes(after_stop(m), polls), Probe::Alive) == if polls < 19 {
            StopAction::Wait
        } else {
            StopAction::ForceKill
        },
    decreases polls,
{
    if polls > 0 {
        lemma_grace_budget(m, (polls - 1) as nat);
    }
}

/// A probe that finds the process gone ends the stop with success at once,
/// however long it took.
pub proof fn lemma_exit_ends_stop(m: SidecarManager)
    requires
        m.lifecycle is Stopping,
    ensures
        probe_action(m, Probe::Exited) == StopAction::Finished,
        after_probe_step(m, Probe::Exited).lifecycle is Stopped,
{
}

} // verus!
