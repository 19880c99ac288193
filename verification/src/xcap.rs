//! The capture-library fallback backend's logic.
//!
//! The last-resort backend wraps a pre-built cross-platform capture
//! library that enumerates monitors and captures one full frame per call,
//! already normalized to tightly packed R,G,B,A. The library calls and
//! the producer thread live outside this crate; what is here is the
//! session-control state machine, the monitor selection, and the check
//! that what the capture library handed back really fits the frame
//! contract before it crosses the core boundary.

use vstd::arithmetic::mul::lemma_mul_upper_bound;
use vstd::prelude::*;

use crate::errors::SessionError;
use crate::frame::{frame_wf, FrameDataInternal};
use crate::pull_loop::StartOutcome;

verus! {

/// How long the producer waits before retrying after a failed library
/// capture, in milliseconds.
pub const LIBRARY_RETRY_DELAY_MS: u64 = 100;

/// The capture-library backend's session-control state: the running flag
/// its producer loop reads every pass, and whether a producer thread
/// currently exists and would have to be joined on stop.
pub struct XCapBackend {
    pub running: bool,
    pub producer: bool,
}

impl XCapBackend {
    /// A fresh backend: not running, no producer.
    pub fn new() -> (b: XCapBackend)
        ensures
            !b.running,
            !b.producer,
    {
        XCapBackend { running: false, producer: false }
    }

    /// Decides a start request. While the session is already running this
    /// is a successful no-op and no second producer is spawned; a frame
    /// rate of zero is refused before any interval is computed; otherwise
    /// the session becomes running and exactly one producer is to be
    /// spawned.
    pub fn start(&mut self, fps: u32) -> (r: Result<StartOutcome, SessionError>)
        ensures
            old(self).running ==> r == Ok::<StartOutcome, SessionError>(
                StartOutcome::AlreadyRunning,
            ) && *final(self) == *old(self),
            !old(self).running && fps == 0 ==> r == Err::<StartOutcome, SessionError>(
                SessionError::InvalidFrameRate,
            ) && *final(self) == *old(self),
            !old(self).running && fps >= 1 ==> r == Ok::<StartOutcome, SessionError>(
                StartOutcome::Spawned,
            ) && final(self).running && final(self).producer,
    {
        if self.running {
            return Ok(StartOutcome::AlreadyRunning);
        }
        if fps == 0 {
            return Err(SessionError::InvalidFrameRate);
        }
        self.running = true;
        self.producer = true;
        Ok(StartOutcome::Spawned)
    }

    /// Ends the session: clears the running flag and joins the producer.
    /// Succeeds whether or not the session was running, and twice in a
    /// row as well as once.
    pub fn stop(&mut self) -> (r: Result<(), SessionError>)
        ensures
            r is Ok,
            !final(self).running,
            !final(self).producer,
    {
        self.running = false;
        self.producer = false;
        Ok(())
    }
}

/// Selects the monitor the producer captures from: always the first
/// enumerated one; an empty enumeration is fatal.
pub fn select_monitor(count: usize) -> (r: Result<usize, SessionError>)
    ensures
        count == 0 ==> r == Err::<usize, SessionError>(SessionError::NoDisplayFound),
        count > 0 ==> r == Ok::<usize, SessionError>(0),
{
    if count == 0 {
        Err(SessionError::NoDisplayFound)
    } else {
        Ok(0)
    }
}

/// Admits one captured image from the capture library into the frame
/// contract. The library already delivers tightly packed R,G,B,A, so the
/// bytes pass through unchanged; what is checked is that the buffer
/// really holds `width * height` four-byte pixels and that the row length
/// fits the contract's stride field. A buffer that does not fit is
/// refused rather than trusted.
pub fn accept_library_frame(width: u32, height: u32, data: Vec<u8>) -> (r: Option<
    FrameDataInternal,
>)
    ensures
        r is Some <==> data@.len() == width as int * height as int * 4 && width as int * 4
            <= u32::MAX as int,
        r matches Some(f) ==> f.width == width,
        r matches Some(f) ==> f.height == height,
        r matches Some(f) ==> frame_wf(f),
        r matches Some(f) ==> f.data@ == data@,
{
    if width > u32::MAX / 4 {
        return None;
    }
    proof {
        lemma_mul_upper_bound(
            width as int,
            0xFFFF_FFFF as int,
            height as int,
            0xFFFF_FFFF as int,
        );
    }
    let expected: u128 = (width as u128) * (height as u128) * 4;
    if (data.len() as u128) != expected {
        return None;
    }
    Some(FrameDataInternal { width, height, stride: width * 4, data })
}

} // verus!
