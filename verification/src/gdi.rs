//! The software fallback backend's logic.
//!
//! The fallback captures by block-copying the screen into an in-memory
//! bitmap and compacting that bitmap into the frame contract. Acquiring
//! and releasing the drawing surfaces, and the block copy itself, are
//! operating-system calls made outside the library; the dimension
//! validation, the bitmap-layout computation and the pixel conversion are
//! here.

use vstd::prelude::*;

use crate::convert::{compact_and_reorder, converts};
use crate::errors::SessionError;
use crate::frame::{frame_wf, FrameDataInternal};

verus! {

/// The layout request for the in-memory bitmap backing the fallback's
/// capture surface: one plane of 32-bit uncompressed pixels, with a
/// negative height so the rows are stored top-down.
pub struct DibHeader {
    /// Byte size of the header structure itself.
    pub size: u32,
    pub width: i32,
    /// Negated pixel height: top-down row order.
    pub height: i32,
    pub planes: u16,
    pub bit_count: u16,
    /// Zero: uncompressed pixels.
    pub compression: u32,
}

/// The software backend's state: the screen dimensions its surfaces and
/// its pixel buffer were sized to. The drawing-surface handles themselves
/// live with the code that acquired them, outside the library.
pub struct GdiState {
    pub width: u32,
    pub height: u32,
}

/// Fills in the layout request for a top-down 32-bit bitmap of the given
/// pixel dimensions.
pub fn dib_header(width: u32, height: u32) -> (h: DibHeader)
    requires
        width <= i32::MAX as u32,
        height <= i32::MAX as u32,
    ensures
        h.size == 40,
        h.width as int == width as int,
        h.height as int == -(height as int),
        h.planes == 1,
        h.bit_count == 32,
        h.compression == 0,
{
    DibHeader {
        size: 40,
        width: width as i32,
        height: -(height as i32),
        planes: 1,
        bit_count: 32,
        compression: 0,
    }
}

impl GdiState {
    /// Accepts the screen dimensions the display subsystem reported, or
    /// refuses to initialize when either is not positive.
    pub fn new(screen_width: i32, screen_height: i32) -> (r: Result<GdiState, SessionError>)
        ensures
            r is Ok <==> screen_width > 0 && screen_height > 0,
            r matches Ok(s) ==> s.width as int == screen_width as int,
            r matches Ok(s) ==> s.height as int == screen_height as int,
            r is Err ==> r == Err::<GdiState, SessionError>(SessionError::InitFailed),
    {
        if screen_width <= 0 || screen_height <= 0 {
            Err(SessionError::InitFailed)
        } else {
            Ok(GdiState { width: screen_width as u32, height: screen_height as u32 })
        }
    }

    /// The conversion half of one software capture: the block copy has
    /// filled `bits` with top-down rows of B,G,R,A pixels, `width * 4`
    /// bytes per row and no padding. Compacts them into the frame
    /// contract with every alpha byte opaque, since a screen bitmap
    /// carries no meaningful alpha. Returns `None` when `bits` is shorter
    /// than the whole image or the row length overflows the frame
    /// contract's stride field.
    pub fn capture_frame(&self, bits: &[u8]) -> (r: Option<FrameDataInternal>)
        ensures
            r is Some <==> self.width as int * self.height as int * 4 <= bits@.len()
                && self.width as int * 4 <= u32::MAX as int,
            r matches Some(f) ==> f.width == self.width,
            r matches Some(f) ==> f.height == self.height,
            r matches Some(f) ==> frame_wf(f),
            r matches Some(f) ==> converts(
                bits@,
                self.width as int * 4,
                self.width as int,
                self.height as int,
                true,
                f.data@,
            ),
    {
        proof {
            let w = self.width as int;
            let h = self.height as int;
            if h > 0 {
                assert((h - 1) * (w * 4) + w * 4 == w * h * 4) by (nonlinear_arith);
            } else {
                assert(w * h * 4 == 0) by (nonlinear_arith)
                    requires h == 0;
            }
        }
        if self.width > u32::MAX / 4 {
            return None;
        }
        let stride: usize = (self.width as usize) * 4;
        match compact_and_reorder(bits, stride, self.width, self.height, true) {
            Some(data) => Some(
                FrameDataInternal {
                    width: self.width,
                    height: self.height,
                    stride: self.width * 4,
                    data,
                },
            ),
            None => None,
        }
    }
}

} // verus!
