//! The push-based streaming backend's logic.
//!
//! The native streaming mechanism starts in two phases: an asynchronous
//! content enumeration that resumes the caller exactly once, then a
//! synchronous configuration step that scopes a capture filter to the
//! first enumerated display, fixes the stream's size, rate, queue depth
//! and pixel format, and attaches a per-frame delivery sink. The
//! enumeration, the stream object and the callback thread live outside
//! the library; the selection, the configuration arithmetic, the
//! per-sample delivery decisions and the one-shot screenshot claim are
//! here.

use vstd::prelude::*;

use crate::errors::SessionError;
use crate::frame::FrameDataInternal;

verus! {

/// Pixel dimensions of one capturable display, as content enumeration
/// reported them.
#[derive(Clone, Copy, PartialEq, Eq, Structural, Debug)]
pub struct DisplayInfo {
    pub width: u64,
    pub height: u64,
}

/// What a completed content enumeration delivered: the capturable
/// displays, in the order the operating system listed them.
pub struct ShareableContent {
    pub displays: Vec<DisplayInfo>,
}

/// A minimum frame interval of `numerator / denominator` seconds.
#[derive(Clone, Copy, PartialEq, Eq, Structural, Debug)]
pub struct FrameInterval {
    pub numerator: u64,
    pub denominator: u32,
}

/// The four-byte B,G,R,A pixel layout every stream is configured with,
/// as the platform's four-character pixel-format code.
pub const PIXEL_FORMAT_BGRA32: u32 = 1111970369;

/// How many frames the stream's internal queue may hold.
pub const STREAM_QUEUE_DEPTH: u32 = 5;

/// The fixed high capture rate a one-shot screenshot stream runs at.
pub const SCREENSHOT_RATE_FPS: u32 = 60;

/// Everything a stream is configured with before it starts.
#[derive(Clone, Copy, PartialEq, Eq, Structural, Debug)]
pub struct StreamConfiguration {
    /// Target width: the display's reported width.
    pub width: u64,
    /// Target height: the display's reported height.
    pub height: u64,
    /// Minimum interval between delivered frames.
    pub min_frame_interval: FrameInterval,
    pub queue_depth: u32,
    pub pixel_format: u32,
}

/// The configuration built for a display at a requested rate: the
/// display's size, one `fps`-th of a second between frames, the fixed
/// queue depth and the fixed B,G,R,A pixel layout.
pub open spec fn configuration_spec(display: DisplayInfo, fps: u32) -> StreamConfiguration {
    StreamConfiguration {
        width: display.width,
        height: display.height,
        min_frame_interval: FrameInterval { numerator: 1, denominator: fps },
        queue_depth: STREAM_QUEUE_DEPTH,
        pixel_format: PIXEL_FORMAT_BGRA32,
    }
}

/// Selects the display a stream is scoped to: always the first
/// enumerated one; an empty enumeration is fatal.
pub fn first_display(content: &ShareableContent) -> (r: Result<DisplayInfo, SessionError>)
    ensures
        content.displays@.len() == 0 ==> r == Err::<DisplayInfo, SessionError>(
            SessionError::NoDisplayFound,
        ),
        content.displays@.len() > 0 ==> r == Ok::<DisplayInfo, SessionError>(
            content.displays@[0],
        ),
{
    if content.displays.len() == 0 {
        Err(SessionError::NoDisplayFound)
    } else {
        Ok(content.displays[0])
    }
}

/// Builds the stream configuration for a display at the requested rate,
/// refusing a rate of zero, from which no frame interval can be derived.
pub fn build_stream_configuration(display: &DisplayInfo, fps: u32) -> (r: Result<
    StreamConfiguration,
    SessionError,
>)
    ensures
        fps == 0 ==> r == Err::<StreamConfiguration, SessionError>(SessionError::InvalidFrameRate),
        fps >= 1 ==> r == Ok::<StreamConfiguration, SessionError>(configuration_spec(*display, fps)),
{
    if fps == 0 {
        return Err(SessionError::InvalidFrameRate);
    }
    Ok(
        StreamConfiguration {
            width: display.width,
            height: display.height,
            min_frame_interval: FrameInterval { numerator: 1, denominator: fps },
            queue_depth: STREAM_QUEUE_DEPTH,
            pixel_format: PIXEL_FORMAT_BGRA32,
        },
    )
}

/// The one-shot completion of the asynchronous content enumeration. The
/// operating system promises to invoke the completion callback exactly
/// once, carrying either the content or an error; this guard keeps only
/// the first invocation, so a second one — against that promise — changes
/// nothing, and the suspended caller is resumed exactly once.
pub struct EnumerationCompletion {
    /// No invocation has arrived yet.
    pub pending: bool,
    /// What the first invocation carried: the enumerated content, or
    /// `None` when the operating system reported an error.
    pub outcome: Option<Option<ShareableContent>>,
}

impl EnumerationCompletion {
    pub fn new() -> (s: EnumerationCompletion)
        ensures
            s.pending,
            s.outcome is None,
    {
        EnumerationCompletion { pending: true, outcome: None }
    }

    /// One callback invocation delivering `content` (`None`: the
    /// operating system reported an error). Only the first invocation is
    /// kept.
    pub fn complete(&mut self, content: Option<ShareableContent>)
        ensures
            old(self).pending ==> !final(self).pending && final(self).outcome == Some(content),
            !old(self).pending ==> *final(self) == *old(self),
    {
        if self.pending {
            self.pending = false;
            self.outcome = Some(content);
        }
    }
}

/// The kind of sample a stream hands its delivery sink.
#[derive(Clone, Copy, PartialEq, Eq, Structural, Debug)]
pub enum SampleKind {
    /// A video frame: the only kind that is decoded and delivered.
    Screen,
    Audio,
    Microphone,
}

/// The per-frame delivery sink of a continuous stream: whether a consumer
/// callback is currently registered with it.
pub struct StreamDelegateIvars {
    pub has_sink: bool,
}

impl StreamDelegateIvars {
    pub fn new(has_sink: bool) -> (s: StreamDelegateIvars)
        ensures
            s.has_sink == has_sink,
    {
        StreamDelegateIvars { has_sink }
    }

    /// The delivery decision for one sample arriving on the stream's
    /// callback thread: the decoded frame is republished to the consumer
    /// exactly when the sample is a video frame, a sink is registered,
    /// and the frame was extracted; every other sample is dropped.
    pub fn did_output(&self, kind: SampleKind, frame: Option<FrameDataInternal>) -> (r: Option<
        FrameDataInternal,
    >)
        ensures
            r is Some <==> kind is Screen && self.has_sink && frame is Some,
            r is Some ==> r == frame,
    {
        match kind {
            SampleKind::Screen => {
                if self.has_sink {
                    frame
                } else {
                    None
                }
            },
            _ => None,
        }
    }
}

/// The one-shot screenshot claim: a single-use slot that exactly one
/// delivered frame resolves.
pub struct ScreenshotDelegateIvars {
    /// The claim is still open: no frame has resolved it yet.
    pub armed: bool,
    /// The frame that resolved the claim, once one did.
    pub delivered: Option<FrameDataInternal>,
}

impl ScreenshotDelegateIvars {
    pub fn new() -> (s: ScreenshotDelegateIvars)
        ensures
            s.armed,
            s.delivered is None,
    {
        ScreenshotDelegateIvars { armed: true, delivered: None }
    }

    /// One sample arriving at the one-shot sink. A video frame that was
    /// extracted resolves the open claim; a video frame whose extraction
    /// failed rolls the claim back so a later frame may resolve it; any
    /// other sample, and anything after the claim has resolved, changes
    /// nothing.
    pub fn did_output(&mut self, kind: SampleKind, frame: Option<FrameDataInternal>)
        ensures
            !(kind is Screen) || !old(self).armed ==> *final(self) == *old(self),
            kind is Screen && old(self).armed && frame is None ==> *final(self) == *old(self),
            kind is Screen && old(self).armed && frame is Some ==> !final(self).armed
                && final(self).delivered == frame,
    {
        match kind {
            SampleKind::Screen => {
                if self.armed {
                    match frame {
                        Some(f) => {
                            self.armed = false;
                            self.delivered = Some(f);
                        },
                        None => {},
                    }
                }
            },
            _ => {},
        }
    }
}

/// The streaming backend's session state: whether a stream object is live
/// and whether a delivery sink is attached to it.
pub struct SCKBackend {
    pub streaming: bool,
    pub has_delegate: bool,
}

impl SCKBackend {
    /// A fresh streaming backend: no stream, no sink.
    pub fn new() -> (s: SCKBackend)
        ensures
            !s.streaming,
            !s.has_delegate,
    {
        SCKBackend { streaming: false, has_delegate: false }
    }

    /// The configuration phase of a continuous capture session, entered
    /// once the asynchronous enumeration resumed the caller: selects the
    /// first display, builds the stream configuration at the requested
    /// rate, and records that a stream is live with a sink attached iff a
    /// consumer callback was supplied. On any refusal the backend is
    /// unchanged.
    ///
    /// The asynchronous start-capture call issued afterwards reports its
    /// own failure only to the completion handler that issued it; such a
    /// failure is not surfaced here, and the session then appears started
    /// with no frames ever arriving.
    pub fn start(
        &mut self,
        enumeration: Option<&ShareableContent>,
        attach_sink: bool,
        fps: u32,
    ) -> (r: Result<StreamConfiguration, SessionError>)
        ensures
            enumeration is None ==> r == Err::<StreamConfiguration, SessionError>(
                SessionError::ContentEnumerationFailed,
            ) && *final(self) == *old(self),
            enumeration matches Some(c) && c.displays@.len() == 0 ==> r == Err::<
                StreamConfiguration,
                SessionError,
            >(SessionError::NoDisplayFound) && *final(self) == *old(self),
            enumeration matches Some(c) && c.displays@.len() > 0 && fps == 0 ==> r == Err::<
                StreamConfiguration,
                SessionError,
            >(SessionError::InvalidFrameRate) && *final(self) == *old(self),
            enumeration matches Some(c) ==> (c.displays@.len() > 0 && fps >= 1 ==> r == Ok::<
                StreamConfiguration,
                SessionError,
            >(configuration_spec(c.displays@[0], fps)) && final(self).streaming
                && final(self).has_delegate == attach_sink),
    {
        let content = match enumeration {
            None => {
                return Err(SessionError::ContentEnumerationFailed);
            },
            Some(c) => c,
        };
        let display = match first_display(content) {
            Err(e) => {
                return Err(e);
            },
            Ok(d) => d,
        };
        let config = match build_stream_configuration(&display, fps) {
            Err(e) => {
                return Err(e);
            },
            Ok(c) => c,
        };
        self.streaming = true;
        self.has_delegate = attach_sink;
        Ok(config)
    }

    /// Ends the streaming session: the stop-capture call is issued and
    /// the stream and sink handles are released, so no frame is delivered
    /// afterwards. Succeeds whether or not a stream was live.
    pub fn stop(&mut self) -> (r: Result<(), SessionError>)
        ensures
            r is Ok,
            !final(self).streaming,
            !final(self).has_delegate,
    {
        self.streaming = false;
        self.has_delegate = false;
        Ok(())
    }

    /// The configuration of a one-shot screenshot stream: the same path
    /// as a continuous start, at the fixed throwaway rate, touching no
    /// session state.
    pub fn screenshot_configuration(enumeration: Option<&ShareableContent>) -> (r: Result<
        StreamConfiguration,
        SessionError,
    >)
        ensures
            enumeration is None ==> r == Err::<StreamConfiguration, SessionError>(
                SessionError::ContentEnumerationFailed,
            ),
            enumeration matches Some(c) && c.displays@.len() == 0 ==> r == Err::<
                StreamConfiguration,
                SessionError,
            >(SessionError::NoDisplayFound),
            enumeration matches Some(c) ==> (c.displays@.len() > 0 ==> r == Ok::<
                StreamConfiguration,
                SessionError,
            >(configuration_spec(c.displays@[0], SCREENSHOT_RATE_FPS))),
    {
        let content = match enumeration {
            None => {
                return Err(SessionError::ContentEnumerationFailed);
            },
            Some(c) => c,
        };
        let display = match first_display(content) {
            Err(e) => {
                return Err(e);
            },
            Ok(d) => d,
        };
        build_stream_configuration(&display, SCREENSHOT_RATE_FPS)
    }

    /// Maps what the one-shot claim finally held to the screenshot
    /// result: the frame that resolved it, or a capture failure when the
    /// stream ended without resolving the claim.
    pub fn screenshot_result(claimed: Option<FrameDataInternal>) -> (r: Result<
        FrameDataInternal,
        SessionError,
    >)
        ensures
            claimed is None ==> r == Err::<FrameDataInternal, SessionError>(
                SessionError::CaptureFailed,
            ),
            claimed matches Some(f) ==> r == Ok::<FrameDataInternal, SessionError>(f),
    {
        match claimed {
            None => Err(SessionError::CaptureFailed),
            Some(f) => Ok(f),
        }
    }
}

impl Default for SCKBackend {
    /// The same fresh backend `new` yields.
    fn default() -> (s: SCKBackend)
        ensures
            !s.streaming,
            !s.has_delegate,
    {
        SCKBackend::new()
    }
}

} // verus!
