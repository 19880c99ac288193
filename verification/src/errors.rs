//! Error classification for the capture core.
//!
//! A duplication-style capture call fails with a raw status code; the core
//! sorts those codes into the three kinds its recovery policy distinguishes.
//! Session-fatal conditions get their own type, surfaced to the caller of
//! the control surface.

use vstd::prelude::*;

verus! {

/// Status code a duplication-style acquire call returns when no new frame
/// arrived within the timeout: the desktop did not change, not a failure.
pub const DUPLICATION_WAIT_TIMEOUT: u32 = 0x887A0027;

/// Status code a duplication-style call returns when the duplication
/// interface itself became unusable (display mode change, graphics reset,
/// session lock) and must be recreated.
pub const DUPLICATION_ACCESS_LOST: u32 = 0x887A0026;

/// How the recovery policy treats one failed capture call.
#[derive(Clone, Copy, PartialEq, Eq, Structural, Debug)]
pub enum CaptureErrorKind {
    /// No frame within the timeout: the steady state, the loop continues.
    Timeout,
    /// The capture interface is gone and must be reinitialized.
    AccessLost,
    /// An unexpected failure: the session demotes to a lesser backend.
    Other,
}

/// A condition that ends or refuses a capture session, surfaced to the
/// caller of the control surface.
#[derive(Clone, Copy, PartialEq, Eq, Structural, Debug)]
pub enum SessionError {
    /// One capture mechanism failed to initialize: absorbed by the
    /// fallback policy while a lesser mechanism is left to try.
    InitFailed,
    /// No capture mechanism could be initialized at all.
    NoCaptureMechanism,
    /// Content enumeration returned no capturable display.
    NoDisplayFound,
    /// A frame rate of zero was requested; the target interval cannot be
    /// computed from it.
    InvalidFrameRate,
    /// The control object holds no backend: another call has taken it.
    BackendMissing,
    /// The asynchronous content-enumeration step reported a failure.
    ContentEnumerationFailed,
    /// A capture failed with no lesser backend left to demote to.
    CaptureFailed,
}

/// The classification a raw duplication status code falls under.
pub open spec fn classify_spec(code: u32) -> CaptureErrorKind {
    if code == DUPLICATION_WAIT_TIMEOUT {
        CaptureErrorKind::Timeout
    } else if code == DUPLICATION_ACCESS_LOST {
        CaptureErrorKind::AccessLost
    } else {
        CaptureErrorKind::Other
    }
}

/// Sorts a raw status code from a failed duplication call into the kind
/// that governs the recovery policy.
pub fn classify_capture_error(code: u32) -> (kind: CaptureErrorKind)
    ensures
        kind == classify_spec(code),
{
    if code == DUPLICATION_WAIT_TIMEOUT {
        CaptureErrorKind::Timeout
    } else if code == DUPLICATION_ACCESS_LOST {
        CaptureErrorKind::AccessLost
    } else {
        CaptureErrorKind::Other
    }
}

} // verus!
