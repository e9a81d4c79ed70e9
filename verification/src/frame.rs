//! Frames and their negotiated format.

use vstd::prelude::*;
use vstd::slice::slice_subrange;
use vstd::slice::slice_to_vec;

verus! {

/// The format that was negotiated for the frames of a run.
#[derive(Clone, Copy, Debug, PartialEq, Eq, Structural)]
pub struct VideoInfo {
    /// Width of every frame in pixels.
    pub width: u32,
    /// Height of every frame in pixels.
    pub height: u32,
}

impl VideoInfo {
    /// How many samples a frame of this format has: four for each pixel.
    pub open spec fn sample_count(self) -> nat {
        (4 * self.width * self.height) as nat
    }
}

/// One decoded frame: 8-bit RGBA samples, the pixels row by row.
#[derive(Debug)]
pub struct Frame {
    /// The number of the frame in the stream, as the source counts.
    pub sequence: u32,
    /// Width in pixels.
    pub width: u32,
    /// Height in pixels.
    pub height: u32,
    /// Four samples for each pixel.
    pub pixels: Vec<u8>,
}

impl Frame {
    /// The frame has the negotiated width and height, and all its samples.
    pub open spec fn fits(&self, format: VideoInfo) -> bool {
        &&& self.width == format.width
        &&& self.height == format.height
        &&& self.pixels@.len() == format.sample_count()
    }

    /// A frame of the given format from the buffer it was delivered in.
    /// What the buffer holds behind the last sample of the frame is
    /// padding, and left out. A buffer that holds less than the frame
    /// gives a frame that does not fit the format.
    pub fn from_buffer(sequence: u32, format: VideoInfo, buffer: &[u8]) -> (frame: Frame)
        ensures
            frame.sequence == sequence,
            frame.width == format.width,
            frame.height == format.height,
            frame.pixels@ == (if buffer@.len() >= format.sample_count() {
                buffer@.take(format.sample_count() as int)
            } else {
                buffer@
            }),
            frame.fits(format) <==> buffer@.len() >= format.sample_count(),
    {
        assert(4 * format.width * format.height <= u128::MAX) by (nonlinear_arith)
            requires
                format.width <= u32::MAX,
                format.height <= u32::MAX,
        ;
        assert(4 * format.width <= u128::MAX);
        let wanted: u128 = 4 * (format.width as u128) * (format.height as u128);
        let pixels = if buffer.len() as u128 >= wanted {
            slice_to_vec(slice_subrange(buffer, 0, wanted as usize))
        } else {
            slice_to_vec(buffer)
        };
        Frame { sequence, width: format.width, height: format.height, pixels }
    }
}

} // verus!
