//! An off-screen render target's bookkeeping: its object names and its
//! size in pixels.
//!
//! The render side allocates the GPU objects and writes their names
//! into the record; the record itself starts with every name zero, the
//! value that marks "not allocated yet".
use vstd::prelude::*;

verus! {

/// A framebuffer record: object names and pixel size.
#[derive(Clone, Copy, PartialEq, Eq, Structural, Debug)]
pub struct FrameBuffer {
    pub fbo: u32,
    pub rbo: u32,
    pub color_buffer: u32,
    pub width: i32,
    pub height: i32,
}

impl FrameBuffer {
    pub open spec fn spec_default() -> FrameBuffer {
        FrameBuffer { fbo: 0, rbo: 0, color_buffer: 0, width: 0, height: 0 }
    }

    /// A new framebuffer record of the given pixel size, with no GPU
    /// objects allocated yet.
    pub fn new(width: i32, height: i32) -> (r: FrameBuffer)
        ensures
            r == (FrameBuffer { width, height, ..FrameBuffer::spec_default() }),
    {
        let mut frame_buffer: FrameBuffer = Default::default();
        frame_buffer.width = width;
        frame_buffer.height = height;
        frame_buffer
    }
}

impl Default for FrameBuffer {
    fn default() -> (r: FrameBuffer)
        ensures
            r == FrameBuffer::spec_default(),
    {
        FrameBuffer { fbo: 0, rbo: 0, color_buffer: 0, width: 0, height: 0 }
    }
}

} // verus!
