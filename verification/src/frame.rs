//! The shape of the pixel memory that a frame is rendered into.

use vstd::prelude::*;

verus! {

/// Bytes in one pixel: 32-bit colour with alpha.
pub const BYTES_PER_PIXEL: u32 = 4;

/// Width and height of a frame buffer in pixels, and its stride: the bytes
/// from the start of one row to the start of the next.
#[derive(Clone, Copy, Debug, PartialEq, Eq, Structural)]
pub struct FrameGeometry {
    pub width: u32,
    pub height: u32,
    pub stride: u32,
}

impl FrameGeometry {
    /// A geometry is well formed when a row of pixels fits into the stride.
    pub open spec fn wf(self) -> bool {
        4 * self.width <= self.stride
    }

    /// The bytes that the buffer holds.
    pub open spec fn byte_len(self) -> int {
        self.stride * self.height
    }

    /// The geometry of a buffer whose rows follow each other without
    /// padding, or `None` where the stride would not fit in 32 bits.
    pub fn packed(width: u32, height: u32) -> (geometry: Option<FrameGeometry>)
        ensures
            geometry == if 4 * width <= u32::MAX {
                Some(FrameGeometry { width, height, stride: (4 * width) as u32 })
            } else {
                None
            },
            geometry matches Some(g) ==> g.wf(),
    {
        match width.checked_mul(BYTES_PER_PIXEL) {
            Some(stride) => Some(FrameGeometry { width, height, stride }),
            None => None,
        }
    }

    /// Computes [`FrameGeometry::byte_len`].
    pub fn len(&self) -> (bytes: u64)
        ensures
            bytes == self.byte_len(),
    {
        assert(self.stride * self.height <= u64::MAX) by (nonlinear_arith)
            requires
                self.stride <= u32::MAX,
                self.height <= u32::MAX,
        ;
        (self.stride as u64) * (self.height as u64)
    }

    /// Whether pixel data of `data_len` bytes with a row pitch of `pitch`
    /// bytes is exactly one frame of this geometry. Only such data may be
    /// uploaded: a different pitch or length would show a torn image.
    pub fn carries(&self, pitch: u32, data_len: usize) -> (exact: bool)
        ensures
            exact == (pitch == self.stride && data_len == self.byte_len()),
    {
        pitch == self.stride && data_len as u64 == self.len()
    }
}

} // verus!
