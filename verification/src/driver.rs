use vstd::prelude::*;

verus! {

/// A system signal as the runtime driver classifies it: an interrupt
/// that starts a controlled shutdown, a signal that must terminate
/// the process outright, or any other signal, which is surfaced to
/// the rest of the system.
#[derive(Clone, Copy, Debug, PartialEq, Eq, Structural)]
pub enum Signal {
    Interrupt,
    Terminating,
    Other,
}

/// What the driver loop does next after one scheduler cycle.
#[derive(Clone, Copy, Debug, PartialEq, Eq, Structural)]
pub enum DriverAction {
    /// Shut the scheduler down in a controlled way and stop.
    Shutdown,
    /// Stop immediately without touching the scheduler.
    ExitNow,
    /// Run another scheduler cycle.
    ContinueRunning,
    /// No work was scheduled: leave the loop and shut down.
    StopIdle,
}

/// Decides the driver loop's next step from the signal received this
/// cycle (if any) and whether the scheduler found work: an interrupt
/// starts a controlled shutdown, a terminating signal stops at once,
/// any other outcome continues while work was scheduled and stops
/// idle otherwise.
pub fn next_step(sig: Option<Signal>, scheduled: bool) -> (a: DriverAction)
    ensures
        a == match sig {
            Some(Signal::Interrupt) => DriverAction::Shutdown,
            Some(Signal::Terminating) => DriverAction::ExitNow,
            _ => if scheduled {
                DriverAction::ContinueRunning
            } else {
                DriverAction::StopIdle
            },
        },
{
    match sig {
        Some(Signal::Interrupt) => DriverAction::Shutdown,
        Some(Signal::Terminating) => DriverAction::ExitNow,
        _ => {
            if scheduled {
                DriverAction::ContinueRunning
            } else {
                DriverAction::StopIdle
            }
        },
    }
}

} // verus!
