//! The pull-family wrapper: duplication pair first, capture library last.
//!
//! Where both pull mechanisms exist, the backend prefers the hardware
//! duplication pair and keeps the capture library as the unconditional
//! last resort, chosen once, when neither pull mechanism could be probed
//! at construction.

use vstd::prelude::*;

use crate::dxgi::DxgiBackend;
use crate::errors::SessionError;
use crate::pull_loop::StartOutcome;
use crate::xcap::XCapBackend;

verus! {

/// Which family the wrapper settled on at construction.
pub enum WindowsInner {
    /// The duplication pair: hardware first, screen-bitmap fallback.
    Dxgi(DxgiBackend),
    /// The capture library, when neither pull mechanism probed usable.
    XCap(XCapBackend),
}

/// The pull-family wrapper backend.
pub struct WindowsBackend {
    pub inner: WindowsInner,
}

/// The backend `WindowsBackend::new` settles on: the duplication pair
/// when probing found either of its two mechanisms usable, the capture
/// library otherwise; fresh and not running either way.
pub open spec fn windows_new_spec(hardware_ok: bool, software_ok: bool) -> WindowsBackend {
    if hardware_ok || software_ok {
        WindowsBackend { inner: WindowsInner::Dxgi(DxgiBackend { running: false, producer: false }) }
    } else {
        WindowsBackend { inner: WindowsInner::XCap(XCapBackend { running: false, producer: false }) }
    }
}

/// The wrapper after a successful spawn: the family it settled on is
/// kept, with its session running and one producer live.
pub open spec fn windows_started(b: WindowsBackend) -> WindowsBackend {
    match b.inner {
        WindowsInner::Dxgi(_) => WindowsBackend {
            inner: WindowsInner::Dxgi(DxgiBackend { running: true, producer: true }),
        },
        WindowsInner::XCap(_) => WindowsBackend {
            inner: WindowsInner::XCap(XCapBackend { running: true, producer: true }),
        },
    }
}

/// The wrapper after a stop: the family it settled on is kept, with its
/// session no longer running and its producer joined.
pub open spec fn windows_stopped(b: WindowsBackend) -> WindowsBackend {
    match b.inner {
        WindowsInner::Dxgi(_) => WindowsBackend {
            inner: WindowsInner::Dxgi(DxgiBackend { running: false, producer: false }),
        },
        WindowsInner::XCap(_) => WindowsBackend {
            inner: WindowsInner::XCap(XCapBackend { running: false, producer: false }),
        },
    }
}

/// Whether the wrapped session is running, whichever family it is.
pub open spec fn windows_running(b: WindowsBackend) -> bool {
    match b.inner {
        WindowsInner::Dxgi(d) => d.running,
        WindowsInner::XCap(x) => x.running,
    }
}

impl WindowsBackend {
    /// Settles on a family from the probe outcomes; see `windows_new_spec`.
    pub fn new(hardware_ok: bool, software_ok: bool) -> (b: WindowsBackend)
        ensures
            b == windows_new_spec(hardware_ok, software_ok),
    {
        match DxgiBackend::new(hardware_ok, software_ok) {
            Ok(d) => WindowsBackend { inner: WindowsInner::Dxgi(d) },
            Err(_) => WindowsBackend { inner: WindowsInner::XCap(XCapBackend::new()) },
        }
    }

    /// Forwards the start decision to the family settled on; the contract
    /// is the family's own: a running session is a successful no-op, a
    /// zero rate is refused, and otherwise one producer is to be spawned.
    pub fn start(&mut self, fps: u32) -> (r: Result<StartOutcome, SessionError>)
        ensures
            windows_running(*old(self)) ==> r == Ok::<StartOutcome, SessionError>(
                StartOutcome::AlreadyRunning,
            ) && *final(self) == *old(self),
            !windows_running(*old(self)) && fps == 0 ==> r == Err::<StartOutcome, SessionError>(
                SessionError::InvalidFrameRate,
            ) && *final(self) == *old(self),
            !windows_running(*old(self)) && fps >= 1 ==> r == Ok::<StartOutcome, SessionError>(
                StartOutcome::Spawned,
            ) && *final(self) == windows_started(*old(self)),
    {
        match &mut self.inner {
            WindowsInner::Dxgi(d) => d.start(fps),
            WindowsInner::XCap(x) => x.start(fps),
        }
    }

    /// Forwards the stop to the family settled on: always succeeds, and
    /// the session is not running afterwards.
    pub fn stop(&mut self) -> (r: Result<(), SessionError>)
        ensures
            r is Ok,
            *final(self) == windows_stopped(*old(self)),
    {
        match &mut self.inner {
            WindowsInner::Dxgi(d) => d.stop(),
            WindowsInner::XCap(x) => x.stop(),
        }
    }
}

} // verus!
