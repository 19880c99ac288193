//! The pull-based capture loop's decisions.
//!
//! A dedicated producer thread drives a pull-based backend: capture one
//! frame, deliver it, sleep out the frame interval, repeat. The thread's
//! work — capturing, delivering, sleeping, reinitializing — happens outside
//! the library; everything the loop decides from what that work reported is
//! here: which mechanism to start with, how to recover from a classified
//! failure, and when the session must end.

use vstd::prelude::*;

use crate::errors::SessionError;

verus! {

/// The capture mechanism a pull-based session is currently running on.
#[derive(Clone, Copy, PartialEq, Eq, Structural, Debug)]
pub enum CaptureMode {
    /// The duplication-style hardware mechanism.
    Dxgi,
    /// The screen-bitmap software fallback.
    Gdi,
}

/// What a backend's start call decided: a fresh producer was spawned, or
/// the session was already running and nothing was started.
#[derive(Clone, Copy, PartialEq, Eq, Structural, Debug)]
pub enum StartOutcome {
    Spawned,
    AlreadyRunning,
}

/// What one pass of the capture loop observed. The reinitialization flags
/// report the outcomes of the attempts the recovery policy goes on to
/// make; a pass that needs none carries none.
#[derive(Clone, Copy, PartialEq, Eq, Structural, Debug)]
pub enum IterationEvent {
    /// The capture yielded a frame and it was handed to the consumer;
    /// `sink_alive` is false when the consumer boundary has gone away,
    /// which ends the session cleanly.
    FrameDelivered { sink_alive: bool },
    /// No new frame arrived within the timeout: the desktop did not
    /// change. The steady state, not a failure.
    NoFrame,
    /// The hardware duplication reported that its interface became
    /// unusable. Reinitializing the hardware mechanism succeeded iff
    /// `hardware_ok`; initializing the software fallback succeeded iff
    /// `software_ok`.
    HardwareAccessLost { hardware_ok: bool, software_ok: bool },
    /// The hardware duplication failed unexpectedly. Initializing the
    /// software fallback succeeded iff `software_ok`.
    HardwareFailed { software_ok: bool },
    /// The software fallback's capture failed; it has no lesser
    /// mechanism left to demote to.
    SoftwareFailed,
}

/// The initialization policy: prefer the hardware mechanism, fall back to
/// the software one, and refuse to start when neither is available.
pub open spec fn init_mode_spec(hardware_ok: bool, software_ok: bool) -> Result<
    CaptureMode,
    SessionError,
> {
    if hardware_ok {
        Ok(CaptureMode::Dxgi)
    } else if software_ok {
        Ok(CaptureMode::Gdi)
    } else {
        Err(SessionError::NoCaptureMechanism)
    }
}

/// Chooses the mechanism a fresh session starts on, from whether each of
/// the two probes succeeded.
pub fn init_capture_mode(hardware_ok: bool, software_ok: bool) -> (r: Result<
    CaptureMode,
    SessionError,
>)
    ensures
        r == init_mode_spec(hardware_ok, software_ok),
{
    if hardware_ok {
        Ok(CaptureMode::Dxgi)
    } else if software_ok {
        Ok(CaptureMode::Gdi)
    } else {
        Err(SessionError::NoCaptureMechanism)
    }
}

/// The loop's transition: from the active mechanism and what the pass
/// observed, the mechanism to continue on and whether the loop keeps
/// running, or the error that ends the session.
///
/// On an access-lost failure the policy reinitializes the same hardware
/// mechanism in place and only demotes to the software fallback when that
/// reinitialization also fails; on any other hardware failure it demotes
/// at once; when even the fallback cannot initialize, the session ends
/// with an error. A report that only the mechanism not currently active
/// could have produced changes nothing.
pub open spec fn step_spec(mode: CaptureMode, ev: IterationEvent) -> Result<
    (CaptureMode, bool),
    SessionError,
> {
    match ev {
        IterationEvent::FrameDelivered { sink_alive } => Ok((mode, sink_alive)),
        IterationEvent::NoFrame => Ok((mode, true)),
        IterationEvent::HardwareAccessLost { hardware_ok, software_ok } => {
            if mode is Gdi {
                Ok((mode, true))
            } else if hardware_ok {
                Ok((CaptureMode::Dxgi, true))
            } else if software_ok {
                Ok((CaptureMode::Gdi, true))
            } else {
                Err(SessionError::NoCaptureMechanism)
            }
        },
        IterationEvent::HardwareFailed { software_ok } => {
            if mode is Gdi {
                Ok((mode, true))
            } else if software_ok {
                Ok((CaptureMode::Gdi, true))
            } else {
                Err(SessionError::CaptureFailed)
            }
        },
        IterationEvent::SoftwareFailed => {
            if mode is Gdi {
                Err(SessionError::CaptureFailed)
            } else {
                Ok((mode, true))
            }
        },
    }
}

/// Decides one pass of the capture loop; see `step_spec` for the policy.
pub fn loop_step(mode: CaptureMode, ev: IterationEvent) -> (r: Result<
    (CaptureMode, bool),
    SessionError,
>)
    ensures
        r == step_spec(mode, ev),
{
    match ev {
        IterationEvent::FrameDelivered { sink_alive } => Ok((mode, sink_alive)),
        IterationEvent::NoFrame => Ok((mode, true)),
        IterationEvent::HardwareAccessLost { hardware_ok, software_ok } => {
            match mode {
                CaptureMode::Gdi => Ok((mode, true)),
                CaptureMode::Dxgi => {
                    if hardware_ok {
                        Ok((CaptureMode::Dxgi, true))
                    } else if software_ok {
                        Ok((CaptureMode::Gdi, true))
                    } else {
                        Err(SessionError::NoCaptureMechanism)
                    }
                },
            }
        },
        IterationEvent::HardwareFailed { software_ok } => {
            match mode {
                CaptureMode::Gdi => Ok((mode, true)),
                CaptureMode::Dxgi => {
                    if software_ok {
                        Ok((CaptureMode::Gdi, true))
                    } else {
                        Err(SessionError::CaptureFailed)
                    }
                },
            }
        },
        IterationEvent::SoftwareFailed => {
            match mode {
                CaptureMode::Gdi => Err(SessionError::CaptureFailed),
                CaptureMode::Dxgi => Ok((mode, true)),
            }
        },
    }
}

/// The mechanism and running flag after the first `i` passes of a session
/// that started on `start` and observed `evs`, or the error that ended it.
/// Once the loop has stopped, later passes change nothing.
pub open spec fn mode_trace(start: CaptureMode, evs: Seq<IterationEvent>, i: int) -> Result<
    (CaptureMode, bool),
    SessionError,
>
    decreases i,
{
    if i <= 0 {
        Ok((start, true))
    } else {
        match mode_trace(start, evs, i - 1) {
            Ok((m, running)) => {
                if running {
                    step_spec(m, evs[i - 1])
                } else {
                    Ok((m, false))
                }
            },
            Err(e) => Err(e),
        }
    }
}

/// A demotion is permanent within a session: once a session runs on the
/// software fallback, no later pass brings it back to the hardware
/// mechanism, whatever the loop goes on to observe.
pub proof fn lemma_demotion_is_permanent(
    start: CaptureMode,
    evs: Seq<IterationEvent>,
    i: int,
    j: int,
)
    requires
        0 <= i <= j,
        mode_trace(start, evs, i) matches Ok((m, _)) && m is Gdi,
    ensures
        mode_trace(start, evs, j) matches Ok((m2, _)) ==> m2 is Gdi,
    decreases j - i,
{
    if j > i {
        lemma_demotion_is_permanent(start, evs, i, j - 1);
    }
}

} // verus!
