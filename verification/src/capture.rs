//! The control surface of the capture core.
//!
//! The caller's runtime hands a session a configuration and a frame
//! callback, then drives it through `start`, `stop` and `screenshot`.
//! Everything those calls decide — which backend family to instantiate,
//! what a start request amounts to on the chosen family, what a stop
//! leaves behind, how a one-shot screenshot resolves — is here. What they
//! go on to do — spawning the producer thread, awaiting the asynchronous
//! enumeration, running the throwaway stream — happens outside the
//! library, which is told the outcomes as plain values.

use vstd::prelude::*;

use crate::errors::SessionError;
use crate::frame::{FrameData, FrameDataInternal};
use crate::pull_loop::StartOutcome;
use crate::sck::{configuration_spec, SCKBackend, ShareableContent, StreamConfiguration};
use crate::windows::{windows_new_spec, windows_running, windows_started, windows_stopped,
    WindowsBackend, WindowsInner};
use crate::xcap::XCapBackend;

verus! {

/// The backend family a caller may request in the configuration.
#[derive(Clone, Copy, PartialEq, Eq, Structural, Debug)]
pub enum CaptureBackend {
    ScreenCaptureKit,
    XCap,
}

/// The caller's configuration: a requested backend family and a frame
/// rate, each optional.
#[derive(Clone, Copy, PartialEq, Eq, Structural, Debug)]
pub struct ScreenCaptureConfig {
    pub backend: Option<CaptureBackend>,
    pub fps: Option<u32>,
}

/// The platform the control surface runs on, as far as backend selection
/// cares: the native streaming mechanism exists on one platform, the
/// duplication pair on another, and the capture library everywhere.
#[derive(Clone, Copy, PartialEq, Eq, Structural, Debug)]
pub enum Platform {
    MacOs,
    Windows,
    Other,
}

/// The frame rate used when the configuration names none.
pub const DEFAULT_FPS: u32 = 60;

/// The backend a session is bound to: exactly one family is active.
pub enum BackendState {
    /// The native streaming backend.
    Sck(SCKBackend),
    /// The duplication pair behind its wrapper.
    Windows(WindowsBackend),
    /// The capture-library fallback.
    XCap(XCapBackend),
}

/// What `start` decided, and with it what remains to be done outside the
/// library.
pub enum StartReport {
    /// The session was already running; nothing is to be started.
    AlreadyRunning,
    /// A producer thread is to be spawned, running the paced pull loop at
    /// this rate.
    SpawnProducer { fps: u32 },
    /// A streaming session was configured with this configuration and
    /// its asynchronous start was issued.
    StreamStarted(StreamConfiguration),
}

/// The frame rate the configuration asks for, or the default.
pub open spec fn configured_fps(config: Option<ScreenCaptureConfig>) -> u32 {
    match config {
        Some(c) => match c.fps {
            Some(f) => f,
            None => DEFAULT_FPS,
        },
        None => DEFAULT_FPS,
    }
}

/// The backend family the configuration asks for, if any.
pub open spec fn requested_backend(config: Option<ScreenCaptureConfig>) -> Option<
    CaptureBackend,
> {
    match config {
        Some(c) => c.backend,
        None => None,
    }
}

/// The selection policy. A requested streaming backend is honoured only
/// on the platform that has it and becomes the capture library elsewhere;
/// a requested library backend is honoured everywhere. With nothing
/// requested, each platform gets its native mechanism — the streaming
/// backend, the duplication pair (probed at construction), or the
/// capture library where neither exists.
pub open spec fn selected_backend_spec(
    requested: Option<CaptureBackend>,
    platform: Platform,
    hardware_ok: bool,
    software_ok: bool,
) -> BackendState {
    match requested {
        Some(CaptureBackend::ScreenCaptureKit) => if platform is MacOs {
            BackendState::Sck(SCKBackend { streaming: false, has_delegate: false })
        } else {
            BackendState::XCap(XCapBackend { running: false, producer: false })
        },
        Some(CaptureBackend::XCap) => BackendState::XCap(
            XCapBackend { running: false, producer: false },
        ),
        None => match platform {
            Platform::MacOs => BackendState::Sck(
                SCKBackend { streaming: false, has_delegate: false },
            ),
            Platform::Windows => BackendState::Windows(windows_new_spec(hardware_ok, software_ok)),
            Platform::Other => BackendState::XCap(
                XCapBackend { running: false, producer: false },
            ),
        },
    }
}

/// The backend after a stop: the same family, with no producer running,
/// no stream live and no sink attached.
pub open spec fn stopped_backend(b: BackendState) -> BackendState {
    match b {
        BackendState::Sck(_) => BackendState::Sck(
            SCKBackend { streaming: false, has_delegate: false },
        ),
        BackendState::Windows(w) => BackendState::Windows(windows_stopped(w)),
        BackendState::XCap(_) => BackendState::XCap(
            XCapBackend { running: false, producer: false },
        ),
    }
}

/// A session holds no running producer, no live stream and no attached
/// sink.
pub open spec fn session_stopped(s: ScreenCapture) -> bool {
    match s.backend {
        None => true,
        Some(BackendState::Sck(k)) => !k.streaming && !k.has_delegate,
        Some(BackendState::Windows(w)) => match w.inner {
            WindowsInner::Dxgi(d) => !d.running && !d.producer,
            WindowsInner::XCap(x) => !x.running && !x.producer,
        },
        Some(BackendState::XCap(x)) => !x.running && !x.producer,
    }
}

/// The session after a stop: the backend stopped, everything else kept.
pub open spec fn stopped_session(s: ScreenCapture) -> ScreenCapture {
    ScreenCapture {
        backend: match s.backend {
            None => None,
            Some(b) => Some(stopped_backend(b)),
        },
        fps: s.fps,
        has_sink: s.has_sink,
    }
}

/// One capture session as the caller's runtime holds it: the backend it
/// is bound to (absent while another call has taken it), the frame rate
/// it was configured with, and whether a frame callback was supplied.
pub struct ScreenCapture {
    pub backend: Option<BackendState>,
    pub fps: u32,
    pub has_sink: bool,
}

impl ScreenCapture {
    /// Binds a fresh session: the configured frame rate or the default,
    /// and the backend the selection policy picks. `hardware_ok` and
    /// `software_ok` report the duplication-pair probe made where that
    /// family is the platform's native choice.
    pub fn new(
        config: Option<ScreenCaptureConfig>,
        platform: Platform,
        hardware_ok: bool,
        software_ok: bool,
        has_callback: bool,
    ) -> (r: ScreenCapture)
        ensures
            r.fps == configured_fps(config),
            r.has_sink == has_callback,
            r.backend == Some(
                selected_backend_spec(
                    requested_backend(config),
                    platform,
                    hardware_ok,
                    software_ok,
                ),
            ),
    {
        let mut fps: u32 = DEFAULT_FPS;
        let mut requested: Option<CaptureBackend> = None;
        if let Some(c) = config {
            requested = c.backend;
            if let Some(f) = c.fps {
                fps = f;
            }
        }
        let backend: BackendState = match requested {
            Some(CaptureBackend::ScreenCaptureKit) => {
                match platform {
                    Platform::MacOs => BackendState::Sck(SCKBackend::new()),
                    _ => BackendState::XCap(XCapBackend::new()),
                }
            },
            Some(CaptureBackend::XCap) => BackendState::XCap(XCapBackend::new()),
            None => {
                match platform {
                    Platform::MacOs => BackendState::Sck(SCKBackend::new()),
                    Platform::Windows => BackendState::Windows(
                        WindowsBackend::new(hardware_ok, software_ok),
                    ),
                    Platform::Other => BackendState::XCap(XCapBackend::new()),
                }
            },
        };
        ScreenCapture { backend: Some(backend), fps, has_sink: has_callback }
    }

    /// Decides a start request on whichever backend the session is bound
    /// to. A session already running is a successful no-op that spawns
    /// nothing; a frame rate of zero is refused before any interval is
    /// computed; the streaming family additionally needs the outcome of
    /// the asynchronous content enumeration, which the caller's runtime
    /// awaited and hands in.
    pub fn start(&mut self, enumeration: Option<&ShareableContent>) -> (r: Result<
        StartReport,
        SessionError,
    >)
        ensures
            old(self).backend is None ==> r == Err::<StartReport, SessionError>(
                SessionError::BackendMissing,
            ) && *final(self) == *old(self),
            old(self).backend matches Some(BackendState::XCap(x)) ==> (if x.running {
                r == Ok::<StartReport, SessionError>(StartReport::AlreadyRunning) && *final(self)
                    == *old(self)
            } else if old(self).fps == 0 {
                r == Err::<StartReport, SessionError>(SessionError::InvalidFrameRate)
                    && *final(self) == *old(self)
            } else {
                r == Ok::<StartReport, SessionError>(
                    StartReport::SpawnProducer { fps: old(self).fps },
                ) && final(self).fps == old(self).fps && final(self).has_sink == old(self).has_sink
                    && (final(self).backend matches Some(BackendState::XCap(x2)) && x2.running
                    && x2.producer)
            }),
            old(self).backend matches Some(BackendState::Windows(w)) ==> (if windows_running(w) {
                r == Ok::<StartReport, SessionError>(StartReport::AlreadyRunning) && *final(self)
                    == *old(self)
            } else if old(self).fps == 0 {
                r == Err::<StartReport, SessionError>(SessionError::InvalidFrameRate)
                    && *final(self) == *old(self)
            } else {
                r == Ok::<StartReport, SessionError>(
                    StartReport::SpawnProducer { fps: old(self).fps },
                ) && final(self).fps == old(self).fps && final(self).has_sink == old(self).has_sink
                    && final(self).backend == Some(BackendState::Windows(windows_started(w)))
            }),
            old(self).backend matches Some(BackendState::Sck(_)) && enumeration is None ==> r
                == Err::<StartReport, SessionError>(SessionError::ContentEnumerationFailed)
                && *final(self) == *old(self),
            old(self).backend matches Some(BackendState::Sck(_)) ==> (enumeration matches Some(c)
                ==> (c.displays@.len() == 0 ==> r == Err::<StartReport, SessionError>(
                SessionError::NoDisplayFound,
            ) && *final(self) == *old(self))),
            old(self).backend matches Some(BackendState::Sck(_)) ==> (enumeration matches Some(c)
                ==> (c.displays@.len() > 0 && old(self).fps == 0 ==> r == Err::<
                StartReport,
                SessionError,
            >(SessionError::InvalidFrameRate) && *final(self) == *old(self))),
            old(self).backend matches Some(BackendState::Sck(_)) ==> (enumeration matches Some(c)
                ==> (c.displays@.len() > 0 && old(self).fps >= 1 ==> r == Ok::<
                StartReport,
                SessionError,
            >(StartReport::StreamStarted(configuration_spec(c.displays@[0], old(self).fps)))
                && final(self).fps == old(self).fps && final(self).has_sink == old(self).has_sink
                && (final(self).backend matches Some(BackendState::Sck(s2)) && s2.streaming
                && s2.has_delegate == old(self).has_sink))),
    {
        let fps = self.fps;
        let has_sink = self.has_sink;
        match &mut self.backend {
            None => Err(SessionError::BackendMissing),
            Some(BackendState::Sck(s)) => {
                match s.start(enumeration, has_sink, fps) {
                    Ok(cfg) => Ok(StartReport::StreamStarted(cfg)),
                    Err(e) => Err(e),
                }
            },
            Some(BackendState::Windows(w)) => {
                match w.start(fps) {
                    Ok(StartOutcome::AlreadyRunning) => Ok(StartReport::AlreadyRunning),
                    Ok(StartOutcome::Spawned) => Ok(StartReport::SpawnProducer { fps }),
                    Err(e) => Err(e),
                }
            },
            Some(BackendState::XCap(x)) => {
                match x.start(fps) {
                    Ok(StartOutcome::AlreadyRunning) => Ok(StartReport::AlreadyRunning),
                    Ok(StartOutcome::Spawned) => Ok(StartReport::SpawnProducer { fps }),
                    Err(e) => Err(e),
                }
            },
        }
    }

    /// Ends whatever the session is running: the producer is joined, the
    /// stream and sink are released. Succeeds on a session that never
    /// started, and twice in a row as well as once.
    pub fn stop(&mut self) -> (r: Result<(), SessionError>)
        ensures
            r is Ok,
            *final(self) == stopped_session(*old(self)),
    {
        match &mut self.backend {
            None => Ok(()),
            Some(BackendState::Sck(s)) => s.stop(),
            Some(BackendState::Windows(w)) => w.stop(),
            Some(BackendState::XCap(x)) => x.stop(),
        }
    }

    /// Resolves a one-shot screenshot. Only the streaming family has a
    /// one-shot path: it runs a throwaway stream whose first decoded
    /// frame — handed in here as what the one-shot claim finally held —
    /// becomes the result, and the session's own state is untouched. On
    /// the pull families the call fails.
    pub fn screenshot(
        &mut self,
        enumeration: Option<&ShareableContent>,
        claimed: Option<FrameDataInternal>,
    ) -> (r: Result<FrameData, SessionError>)
        ensures
            *final(self) == *old(self),
            old(self).backend is None ==> r == Err::<FrameData, SessionError>(
                SessionError::BackendMissing,
            ),
            old(self).backend matches Some(BackendState::Sck(_)) && enumeration is None ==> r
                == Err::<FrameData, SessionError>(SessionError::ContentEnumerationFailed),
            old(self).backend matches Some(BackendState::Sck(_)) ==> (enumeration matches Some(c)
                ==> (c.displays@.len() == 0 ==> r == Err::<FrameData, SessionError>(
                SessionError::NoDisplayFound,
            ))),
            old(self).backend matches Some(BackendState::Sck(_)) ==> (enumeration matches Some(c)
                ==> (c.displays@.len() > 0 && claimed is None ==> r == Err::<
                FrameData,
                SessionError,
            >(SessionError::CaptureFailed))),
            old(self).backend matches Some(BackendState::Sck(_)) ==> (enumeration matches Some(c)
                ==> (c.displays@.len() > 0 ==> (claimed matches Some(f) ==> (
            r matches Ok(fd) && fd.width == f.width && fd.height == f.height && fd.stride
                == f.stride && fd.rgba@ == f.data@)))),
            old(self).backend matches Some(BackendState::Windows(_)) ==> r == Err::<
                FrameData,
                SessionError,
            >(SessionError::CaptureFailed),
            old(self).backend matches Some(BackendState::XCap(_)) ==> r == Err::<
                FrameData,
                SessionError,
            >(SessionError::CaptureFailed),
    {
        match &self.backend {
            None => Err(SessionError::BackendMissing),
            Some(BackendState::Sck(_)) => {
                let content = match enumeration {
                    None => {
                        return Err(SessionError::ContentEnumerationFailed);
                    },
                    Some(c) => c,
                };
                if content.displays.len() == 0 {
                    return Err(SessionError::NoDisplayFound);
                }
                match SCKBackend::screenshot_result(claimed) {
                    Ok(f) => Ok(f.into_frame_data()),
                    Err(e) => Err(e),
                }
            },
            Some(BackendState::Windows(_)) => Err(SessionError::CaptureFailed),
            Some(BackendState::XCap(_)) => Err(SessionError::CaptureFailed),
        }
    }
}

/// A stop leaves the session stopped, whatever it was doing.
pub proof fn lemma_stop_stops(s: ScreenCapture)
    ensures
        session_stopped(stopped_session(s)),
{
}

/// On a session that holds no running producer, no live stream and no
/// attached sink — one never started, or one already stopped — a stop
/// changes nothing.
pub proof fn lemma_stop_on_stopped_is_noop(s: ScreenCapture)
    requires
        session_stopped(s),
    ensures
        stopped_session(s) == s,
{
}

/// Stopping twice is stopping once: the second stop is a no-op.
pub proof fn lemma_stop_idempotent(s: ScreenCapture)
    ensures
        stopped_session(stopped_session(s)) == stopped_session(s),
{
    lemma_stop_stops(s);
    lemma_stop_on_stopped_is_noop(stopped_session(s));
}

} // verus!
