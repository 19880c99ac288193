//! The frame data contract: every frame that leaves the capture core is a
//! tightly packed R,G,B,A image, whatever the source's native layout was.

use vstd::prelude::*;

verus! {

/// One captured image as the capture backends produce it: `data` holds
/// `width * height` pixels of four bytes each in R,G,B,A order, row-major,
/// with no padding between rows, so `stride` always equals `width * 4`.
pub struct FrameDataInternal {
    pub width: u32,
    pub height: u32,
    pub stride: u32,
    pub data: Vec<u8>,
}

/// One captured image as the consumer boundary receives it. It carries the
/// same tightly packed R,G,B,A bytes as `FrameDataInternal`; only the name
/// of the pixel field differs at that boundary.
pub struct FrameData {
    pub width: u32,
    pub height: u32,
    pub stride: u32,
    pub rgba: Vec<u8>,
}

/// The invariant of every frame that crosses the core boundary: the buffer
/// is tightly packed, four bytes per pixel, with the stride equal to the
/// row length.
pub open spec fn frame_wf(f: FrameDataInternal) -> bool {
    &&& f.stride as int == f.width as int * 4
    &&& f.data@.len() == f.width as int * f.height as int * 4
}

impl FrameDataInternal {
    /// Repackages a frame for the consumer boundary, moving the pixel bytes.
    pub fn into_frame_data(self) -> (r: FrameData)
        ensures
            r.width == self.width,
            r.height == self.height,
            r.stride == self.stride,
            r.rgba@ == self.data@,
    {
        FrameData {
            width: self.width,
            height: self.height,
            stride: self.stride,
            rgba: self.data,
        }
    }
}

} // verus!
