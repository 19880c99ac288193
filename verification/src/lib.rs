//! A verified core for a continuous screen-capture pipeline.
//!
//! The library holds the platform-independent logic of the pipeline: the
//! frame data contract, the pixel-format normalization every backend must
//! perform, the classification of capture failures, the fixed-rate pacing
//! arithmetic, the fallback policy that keeps a session alive when the
//! preferred capture mechanism degrades, and the lifecycle state machines
//! of the capture sessions. The operating-system calls that acquire the
//! raw pixels live outside the library and hand it plain values.

pub mod capture;
pub mod convert;
pub mod dxgi;
pub mod errors;
pub mod frame;
pub mod gdi;
pub mod pacing;
pub mod pull_loop;
pub mod sck;
pub mod windows;
pub mod xcap;
