//! Raw-frame transcoding: strided, source-ordered pixels become a tightly
//! packed, fully opaque RGBA buffer.

use vstd::prelude::*;

use crate::image_model::{CanonicalImage, ChannelOrder, RawFrame, OPAQUE};

verus! {

/// The four output bytes of the pixel at `(x, y)` hold the source's red,
/// green and blue bytes (looked up through `order`) and an opaque alpha.
pub open spec fn pixel_transcoded(
    data: Seq<u8>,
    raw: RawFrame,
    order: ChannelOrder,
    x: int,
    y: int,
) -> bool {
    let base = (y * raw.width + x) * 4;
    &&& data[base + 0] == raw.byte_at(x, y, order.red as int)
    &&& data[base + 1] == raw.byte_at(x, y, order.green as int)
    &&& data[base + 2] == raw.byte_at(x, y, order.blue as int)
    &&& data[base + 3] == OPAQUE
}

/// `img` is the canonical form of `raw` under `order`: same dimensions,
/// tightly packed, every pixel remapped and forced opaque.
pub open spec fn is_transcode(img: CanonicalImage, raw: RawFrame, order: ChannelOrder) -> bool {
    &&& img.width == raw.width
    &&& img.height == raw.height
    &&& img.wf()
    &&& forall|x: int, y: int|
        0 <= x < raw.width && 0 <= y < raw.height ==> #[trigger] pixel_transcoded(
            img.data@,
            raw,
            order,
            x,
            y,
        )
}

/// Row-major pixel positions are ordered: an earlier pixel has a smaller
/// linear index.
proof fn lemma_pixel_index_lt(w: int, x1: int, y1: int, x2: int, y2: int)
    requires
        0 <= x1 < w,
        0 <= x2,
        0 <= y1,
        0 <= y2,
        y1 < y2 || (y1 == y2 && x1 < x2),
    ensures
        y1 * w + x1 < y2 * w + x2,
{
    if y1 < y2 {
        assert((y1 + 1) * w <= y2 * w) by (nonlinear_arith)
            requires
                y1 + 1 <= y2,
                0 <= w,
        ;
        assert(y1 * w + x1 < (y1 + 1) * w) by (nonlinear_arith)
            requires
                x1 < w,
        ;
    }
}

/// Convert one raw frame into a canonical image.
///
/// Each row is read at the frame's own stride — row padding past
/// `width * 4` bytes is skipped, and nothing past `stride * height` is
/// read. The source channel order is remapped explicitly and the alpha
/// channel is forced to the fully opaque value, whatever the source
/// reported there.
pub fn transcode(raw: &RawFrame, order: &ChannelOrder) -> (img: CanonicalImage)
    requires
        raw.wf(),
        order.wf(),
        raw.width * raw.height * 4 <= usize::MAX,
    ensures
        is_transcode(img, *raw, *order),
        img.opaque(),
{
    let w = raw.width;
    let h = raw.height;
    let stride = raw.stride;
    let buf_len = raw.data.len();
    let mut data: Vec<u8> = Vec::new();
    let mut y: usize = 0;
    while y < h
        invariant
            raw.wf(),
            order.wf(),
            w == raw.width,
            h == raw.height,
            stride == raw.stride,
            buf_len == raw.data@.len(),
            w * h * 4 <= usize::MAX,
            y <= h,
            data@.len() == y * w * 4,
            forall|xx: int, yy: int|
                0 <= xx < w && 0 <= yy < y ==> #[trigger] pixel_transcoded(
                    data@,
                    *raw,
                    *order,
                    xx,
                    yy,
                ),
        decreases h - y,
    {
        proof {
            assert(y * stride + stride <= stride * h) by (nonlinear_arith)
                requires
                    y < h,
                    0 <= stride,
            ;
        }
        let row = y * stride;
        let mut x: usize = 0;
        while x < w
            invariant
                raw.wf(),
                order.wf(),
                w == raw.width,
                h == raw.height,
                stride == raw.stride,
                buf_len == raw.data@.len(),
                w * h * 4 <= usize::MAX,
                y < h,
                x <= w,
                row == y * stride,
                row + stride <= raw.data@.len(),
                data@.len() == (y * w + x) * 4,
                forall|xx: int, yy: int|
                    0 <= xx < w && 0 <= yy < y ==> #[trigger] pixel_transcoded(
                        data@,
                        *raw,
                        *order,
                        xx,
                        yy,
                    ),
                forall|xx: int|
                    0 <= xx < x ==> #[trigger] pixel_transcoded(data@, *raw, *order, xx, y as int),
            decreases w - x,
        {
            proof {
                assert((y * w + x) * 4 + 4 <= w * h * 4) by (nonlinear_arith)
                    requires
                        0 <= x < w,
                        0 <= y < h,
                ;
            }
            let i = row + 4 * x;
            let ghost prev = data@;
            data.push(raw.data[i + order.red]);
            data.push(raw.data[i + order.green]);
            data.push(raw.data[i + order.blue]);
            data.push(OPAQUE);
            proof {
                assert forall|xx: int, yy: int|
                    0 <= xx < w && 0 <= yy < y implies #[trigger] pixel_transcoded(
                    data@,
                    *raw,
                    *order,
                    xx,
                    yy,
                ) by {
                    lemma_pixel_index_lt(w as int, xx, yy, x as int, y as int);
                    assert(pixel_transcoded(prev, *raw, *order, xx, yy));
                }
                assert forall|xx: int| 0 <= xx < x implies #[trigger] pixel_transcoded(
                    data@,
                    *raw,
                    *order,
                    xx,
                    y as int,
                ) by {
                    lemma_pixel_index_lt(w as int, xx, y as int, x as int, y as int);
                    assert(pixel_transcoded(prev, *raw, *order, xx, y as int));
                }
                assert(pixel_transcoded(data@, *raw, *order, x as int, y as int));
            }
            x = x + 1;
        }
        proof {
            assert((y * w + w) * 4 == (y + 1) * w * 4) by (nonlinear_arith);
        }
        y = y + 1;
    }
    let img = CanonicalImage { width: w, height: h, data };
    proof {
        assert(w * h * 4 == h * w * 4) by (nonlinear_arith);
        assert forall|x: int, y: int|
            0 <= x < img.width && 0 <= y < img.height implies #[trigger] img.px(x, y, 3)
            == OPAQUE by {
            assert(pixel_transcoded(img.data@, *raw, *order, x, y));
        }
    }
    img
}

/// A solid-color raw frame transcodes, whatever its stride padding, to an
/// image whose every pixel holds the remapped color with an opaque alpha.
pub proof fn lemma_transcode_solid(
    img: CanonicalImage,
    raw: RawFrame,
    order: ChannelOrder,
    b0: u8,
    b1: u8,
    b2: u8,
    b3: u8,
)
    requires
        raw.wf(),
        order.wf(),
        is_transcode(img, raw, order),
        raw.solid(b0, b1, b2, b3),
    ensures
        img.data@.len() == raw.width * raw.height * 4,
        forall|x: int, y: int|
            0 <= x < img.width && 0 <= y < img.height ==> {
                &&& #[trigger] img.px(x, y, 0) == channel_of(b0, b1, b2, b3, order.red as int)
                &&& img.px(x, y, 1) == channel_of(b0, b1, b2, b3, order.green as int)
                &&& img.px(x, y, 2) == channel_of(b0, b1, b2, b3, order.blue as int)
                &&& img.px(x, y, 3) == OPAQUE
            },
{
    assert(raw.width * raw.height * 4 == raw.height * raw.width * 4) by (nonlinear_arith);
    assert forall|x: int, y: int| 0 <= x < img.width && 0 <= y < img.height implies {
        &&& #[trigger] img.px(x, y, 0) == channel_of(b0, b1, b2, b3, order.red as int)
        &&& img.px(x, y, 1) == channel_of(b0, b1, b2, b3, order.green as int)
        &&& img.px(x, y, 2) == channel_of(b0, b1, b2, b3, order.blue as int)
        &&& img.px(x, y, 3) == OPAQUE
    } by {
        assert(pixel_transcoded(img.data@, raw, order, x, y));
        assert(raw.byte_at(x, y, 0) == b0);
        assert(raw.byte_at(x, y, 1) == b1);
        assert(raw.byte_at(x, y, 2) == b2);
        assert(raw.byte_at(x, y, 3) == b3);
    }
}

/// The byte a solid color carries at source channel position `c`.
pub open spec fn channel_of(b0: u8, b1: u8, b2: u8, b3: u8, c: int) -> u8 {
    if c == 0 {
        b0
    } else if c == 1 {
        b1
    } else if c == 2 {
        b2
    } else {
        b3
    }
}

} // verus!
