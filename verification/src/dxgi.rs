//! The duplication-style hardware backend's logic.
//!
//! The hardware backend acquires frames from a desktop-duplication
//! interface: device and duplication handles, GPU texture copies and
//! map/unmap calls are made outside the library under a guaranteed-release
//! discipline. What the library holds is the backend's recorded mode —
//! whether the cheap system-memory path is available and what size the
//! cached staging texture was created at — and the session-control state
//! machine that makes `start` idempotent and `stop` final.

use vstd::prelude::*;

use crate::errors::{classify_capture_error, classify_spec, CaptureErrorKind, SessionError};
use crate::pull_loop::StartOutcome;

verus! {

/// How a failed acquire call is treated: a timeout means no new frame
/// arrived — the expected steady state, not a failure — while anything
/// else is the classified failure the recovery policy acts on.
pub fn acquire_failure(code: u32) -> (r: Option<CaptureErrorKind>)
    ensures
        r is None <==> classify_spec(code) is Timeout,
        r matches Some(k) ==> k == classify_spec(code),
{
    match classify_capture_error(code) {
        CaptureErrorKind::Timeout => None,
        kind => Some(kind),
    }
}

/// What the hardware mechanism recorded when its duplication handle was
/// created, and the size of the staging texture it has cached since.
pub struct DxgiState {
    /// The duplication mirrors the desktop image into system memory, so
    /// captures can map it directly instead of copying a GPU texture.
    pub fastlane: bool,
    /// Pixel width of the duplicated output's current mode.
    pub width: u32,
    /// Pixel height of the duplicated output's current mode.
    pub height: u32,
    /// Dimensions the cached CPU-readable staging texture was created
    /// with, or `None` before the first slow-path capture.
    pub staging: Option<(u32, u32)>,
}

impl DxgiState {
    /// Records what duplication setup reported: whether the fast lane is
    /// available and the output's current mode. No staging texture exists
    /// yet.
    pub fn new(fastlane: bool, width: u32, height: u32) -> (s: DxgiState)
        ensures
            s.fastlane == fastlane,
            s.width == width,
            s.height == height,
            s.staging is None,
    {
        DxgiState { fastlane, width, height, staging: None }
    }

    /// Whether the slow path must create a fresh staging texture before
    /// copying a frame of the given size: it must whenever no staging
    /// texture is cached or the cached one was created at another size.
    pub fn needs_new_staging(&self, frame_width: u32, frame_height: u32) -> (r: bool)
        ensures
            r <==> self.staging != Some((frame_width, frame_height)),
    {
        match self.staging {
            None => true,
            Some((w, h)) => w != frame_width || h != frame_height,
        }
    }

    /// Records that a staging texture of the given size has been created
    /// and cached; nothing else about the backend changes.
    pub fn note_staging(&mut self, frame_width: u32, frame_height: u32)
        ensures
            final(self).staging == Some((frame_width, frame_height)),
            final(self).fastlane == old(self).fastlane,
            final(self).width == old(self).width,
            final(self).height == old(self).height,
    {
        self.staging = Some((frame_width, frame_height));
    }
}

/// The session-control state of the hardware/software backend pair: the
/// running flag the producer loop reads every pass, and whether a producer
/// thread currently exists and would have to be joined on stop.
pub struct DxgiBackend {
    pub running: bool,
    pub producer: bool,
}

impl DxgiBackend {
    /// Accepts the backend only when probing found at least one of the
    /// two pull mechanisms usable; a fresh backend is not running.
    pub fn new(hardware_ok: bool, software_ok: bool) -> (r: Result<DxgiBackend, SessionError>)
        ensures
            r is Ok <==> hardware_ok || software_ok,
            r matches Ok(b) ==> !b.running && !b.producer,
            r is Err ==> r == Err::<DxgiBackend, SessionError>(SessionError::NoCaptureMechanism),
    {
        if hardware_ok || software_ok {
            Ok(DxgiBackend { running: false, producer: false })
        } else {
            Err(SessionError::NoCaptureMechanism)
        }
    }

    /// Decides a start request. While the session is already running this
    /// is a successful no-op and no second producer is spawned; a frame
    /// rate of zero is refused before any interval is computed; otherwise
    /// the session becomes running and exactly one producer is to be
    /// spawned.
    pub fn start(&mut self, fps: u32) -> (r: Result<StartOutcome, SessionError>)
        ensures
            old(self).running ==> r == Ok::<StartOutcome, SessionError>(
                StartOutcome::AlreadyRunning,
            ) && *final(self) == *old(self),
            !old(self).running && fps == 0 ==> r == Err::<StartOutcome, SessionError>(
                SessionError::InvalidFrameRate,
            ) && *final(self) == *old(self),
            !old(self).running && fps >= 1 ==> r == Ok::<StartOutcome, SessionError>(
                StartOutcome::Spawned,
            ) && final(self).running && final(self).producer,
    {
        if self.running {
            return Ok(StartOutcome::AlreadyRunning);
        }
        if fps == 0 {
            return Err(SessionError::InvalidFrameRate);
        }
        self.running = true;
        self.producer = true;
        Ok(StartOutcome::Spawned)
    }

    /// Ends the session: clears the running flag and joins the producer,
    /// so no resource handle outlives the call. Succeeds whether or not
    /// the session was running, and twice in a row as well as once.
    pub fn stop(&mut self) -> (r: Result<(), SessionError>)
        ensures
            r is Ok,
            !final(self).running,
            !final(self).producer,
    {
        self.running = false;
        self.producer = false;
        Ok(())
    }
}

} // verus!
