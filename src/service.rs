//! Status reports of the daemon when it runs as a system service.
use vstd::prelude::*;

verus! {

/// The lifecycle states of a system service.
#[derive(Clone, Copy, Debug, PartialEq, Eq, Structural)]
pub enum ServiceState {
    Stopped,
    StartPending,
    StopPending,
    Running,
    ContinuePending,
    PausePending,
    Paused,
}

/// The control events a service accepts.
#[derive(Clone, Copy, Debug, PartialEq, Eq, Structural)]
pub struct ServiceControlAccept {
    pub stop: bool,
    pub preshutdown: bool,
}

/// How the service ended.
#[derive(Clone, Copy, Debug, PartialEq, Eq, Structural)]
pub enum ServiceExitCode {
    NoError,
    ServiceSpecific(u32),
}

/// One status report to the service manager.
#[derive(Clone, Copy, Debug, PartialEq, Eq, Structural)]
pub struct ServiceStatus {
    pub current_state: ServiceState,
    pub controls_accepted: ServiceControlAccept,
    pub exit_code: ServiceExitCode,
    pub checkpoint: u32,
    pub wait_hint_ms: u64,
}

/// A state in transition from one stable state to another.
pub open spec fn is_pending(state: ServiceState) -> bool {
    match state {
        ServiceState::StartPending | ServiceState::StopPending | ServiceState::ContinuePending
        | ServiceState::PausePending => true,
        _ => false,
    }
}

/// Stop and pre-shutdown are accepted when running or paused, nothing else ever.
pub open spec fn spec_accepted_controls(state: ServiceState) -> ServiceControlAccept {
    let stable = state == ServiceState::Running || state == ServiceState::Paused;
    ServiceControlAccept { stop: stable, preshutdown: stable }
}

/// Returns the service events accepted at each stage of the service lifecycle.
pub fn accepted_controls_by_state(state: ServiceState) -> (a: ServiceControlAccept)
    ensures
        a == spec_accepted_controls(state),
{
    match state {
        ServiceState::StartPending | ServiceState::PausePending | ServiceState::ContinuePending => {
            ServiceControlAccept { stop: false, preshutdown: false }
        },
        ServiceState::Running => ServiceControlAccept { stop: true, preshutdown: true },
        ServiceState::Paused => ServiceControlAccept { stop: true, preshutdown: true },
        ServiceState::StopPending | ServiceState::Stopped => ServiceControlAccept {
            stop: false,
            preshutdown: false,
        },
    }
}

/// Builds status reports with a checkpoint that grows with every pending
/// report, so that the service manager sees progress.
pub struct PersistentServiceStatus {
    pub checkpoint_counter: u32,
}

impl PersistentServiceStatus {
    /// A reporter whose first pending report has checkpoint 1.
    pub fn new() -> (s: Self)
        ensures
            s.checkpoint_counter == 1,
    {
        PersistentServiceStatus { checkpoint_counter: 1 }
    }

    /// The report of a move to `next_state`: a pending state takes the next
    /// checkpoint (counting modulo 2^32), a stable one checkpoint 0.
    pub fn report_status(
        &mut self,
        next_state: ServiceState,
        wait_hint_ms: u64,
        exit_code: ServiceExitCode,
    ) -> (s: ServiceStatus)
        ensures
            s == (ServiceStatus {
                current_state: next_state,
                controls_accepted: spec_accepted_controls(next_state),
                exit_code,
                checkpoint: if is_pending(next_state) {
                    old(self).checkpoint_counter
                } else {
                    0
                },
                wait_hint_ms,
            }),
            final(self).checkpoint_counter == if is_pending(next_state) {
                old(self).checkpoint_counter.wrapping_add(1)
            } else {
                old(self).checkpoint_counter
            },
    {
        let checkpoint = match next_state {
            ServiceState::StartPending | ServiceState::StopPending | ServiceState::ContinuePending
            | ServiceState::PausePending => {
                let c = self.checkpoint_counter;
                self.checkpoint_counter = c.wrapping_add(1);
                c
            },
            _ => 0,
        };
        ServiceStatus {
            current_state: next_state,
            controls_accepted: accepted_controls_by_state(next_state),
            exit_code,
            checkpoint,
            wait_hint_ms,
        }
    }

    /// The service is starting and expects to be running within the hint.
    pub fn set_pending_start(&mut self, wait_hint_ms: u64) -> (s: ServiceStatus)
        ensures
            s == (ServiceStatus {
                current_state: ServiceState::StartPending,
                controls_accepted: spec_accepted_controls(ServiceState::StartPending),
                exit_code: ServiceExitCode::NoError,
                checkpoint: old(self).checkpoint_counter,
                wait_hint_ms,
            }),
            final(self).checkpoint_counter == old(self).checkpoint_counter.wrapping_add(1),
    {
        self.report_status(ServiceState::StartPending, wait_hint_ms, ServiceExitCode::NoError)
    }

    /// The service is running.
    pub fn set_running(&mut self) -> (s: ServiceStatus)
        ensures
            s == (ServiceStatus {
                current_state: ServiceState::Running,
                controls_accepted: spec_accepted_controls(ServiceState::Running),
                exit_code: ServiceExitCode::NoError,
                checkpoint: 0,
                wait_hint_ms: 0,
            }),
            final(self).checkpoint_counter == old(self).checkpoint_counter,
    {
        self.report_status(ServiceState::Running, 0, ServiceExitCode::NoError)
    }

    /// The service is stopping and expects to be stopped within the hint.
    pub fn set_pending_stop(&mut self, wait_hint_ms: u64) -> (s: ServiceStatus)
        ensures
            s == (ServiceStatus {
                current_state: ServiceState::StopPending,
                controls_accepted: spec_accepted_controls(ServiceState::StopPending),
                exit_code: ServiceExitCode::NoError,
                checkpoint: old(self).checkpoint_counter,
                wait_hint_ms,
            }),
            final(self).checkpoint_counter == old(self).checkpoint_counter.wrapping_add(1),
    {
        self.report_status(ServiceState::StopPending, wait_hint_ms, ServiceExitCode::NoError)
    }

    /// The service has stopped with the exit code.
    pub fn set_stopped(&mut self, exit_code: ServiceExitCode) -> (s: ServiceStatus)
        ensures
            s == (ServiceStatus {
                current_state: ServiceState::Stopped,
                controls_accepted: spec_accepted_controls(ServiceState::Stopped),
                exit_code,
                checkpoint: 0,
                wait_hint_ms: 0,
            }),
            final(self).checkpoint_counter == old(self).checkpoint_counter,
    {
        self.report_status(ServiceState::Stopped, 0, exit_code)
    }
}

} // verus!
