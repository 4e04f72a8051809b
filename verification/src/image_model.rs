//! Pixel-level data model: raw captured frames and canonical RGBA images.

use vstd::prelude::*;

verus! {

/// A raw frame as delivered by a capture source: `height` rows, each
/// `stride` bytes long with 4 bytes per pixel, possibly padded at the end
/// of the row (`stride >= width * 4`). The channel order within a pixel is
/// source-defined and carried separately as a [`ChannelOrder`].
pub struct RawFrame {
    pub width: usize,
    pub height: usize,
    pub stride: usize,
    pub data: Vec<u8>,
}

impl RawFrame {
    /// The buffer holds all rows at the declared stride, and a row holds
    /// all pixels.
    pub open spec fn wf(&self) -> bool {
        &&& self.width * 4 <= self.stride
        &&& self.stride * self.height <= self.data@.len()
    }

    /// Source byte of channel `c` of the pixel at `(x, y)`.
    pub open spec fn byte_at(&self, x: int, y: int, c: int) -> u8 {
        self.data@[y * self.stride + 4 * x + c]
    }

    /// Every pixel of the frame carries the same four source bytes.
    pub open spec fn solid(&self, b0: u8, b1: u8, b2: u8, b3: u8) -> bool {
        forall|x: int, y: int|
            0 <= x < self.width && 0 <= y < self.height ==> {
                &&& #[trigger] self.byte_at(x, y, 0) == b0
                &&& self.byte_at(x, y, 1) == b1
                &&& self.byte_at(x, y, 2) == b2
                &&& self.byte_at(x, y, 3) == b3
            }
    }
}

/// Positions, within a 4-byte source pixel, of the bytes that become the
/// red, green and blue channels of the canonical image. The source's alpha
/// is never read: canonical images are forced fully opaque.
pub struct ChannelOrder {
    pub red: usize,
    pub green: usize,
    pub blue: usize,
}

impl ChannelOrder {
    pub open spec fn wf(&self) -> bool {
        self.red < 4 && self.green < 4 && self.blue < 4
    }

    /// Order of a source that delivers blue, green, red, alpha — the common
    /// layout of screen-capture hardware.
    pub fn bgra() -> (r: ChannelOrder)
        ensures
            r.wf(),
            r.red == 2 && r.green == 1 && r.blue == 0,
    {
        ChannelOrder { red: 2, green: 1, blue: 0 }
    }

    /// Order of a source that already delivers red, green, blue, alpha.
    pub fn rgba() -> (r: ChannelOrder)
        ensures
            r.wf(),
            r.red == 0 && r.green == 1 && r.blue == 2,
    {
        ChannelOrder { red: 0, green: 1, blue: 2 }
    }
}

/// The pipeline's internal currency: a tightly packed RGBA buffer of
/// exactly `width * height * 4` bytes, row-major, alpha fully opaque.
pub struct CanonicalImage {
    pub width: usize,
    pub height: usize,
    pub data: Vec<u8>,
}

/// The alpha channel's fully opaque value.
pub const OPAQUE: u8 = 255;

impl CanonicalImage {
    /// The buffer is tightly packed: exactly 4 bytes per pixel, no padding.
    pub open spec fn wf(&self) -> bool {
        self.data@.len() == self.width * self.height * 4
    }

    /// Channel `c` (0 = red, 1 = green, 2 = blue, 3 = alpha) of the pixel
    /// at `(x, y)`.
    pub open spec fn px(&self, x: int, y: int, c: int) -> u8 {
        self.data@[(y * self.width + x) * 4 + c]
    }

    /// Every pixel's alpha channel is fully opaque.
    pub open spec fn opaque(&self) -> bool {
        forall|x: int, y: int|
            0 <= x < self.width && 0 <= y < self.height ==> #[trigger] self.px(x, y, 3) == OPAQUE
    }
}

/// Two canonical images agree in size and in every channel of every pixel.
pub open spec fn same_image(a: CanonicalImage, b: CanonicalImage) -> bool {
    &&& a.width == b.width
    &&& a.height == b.height
    &&& forall|x: int, y: int, c: int|
        0 <= x < a.width && 0 <= y < a.height && 0 <= c < 4 ==> #[trigger] a.px(x, y, c) == b.px(
            x,
            y,
            c,
        )
}

} // verus!
