//! Horizontal composition: N canonical images are laid out left to right,
//! in input order, on one canvas whose width is the sum of the input widths
//! and whose height is the maximum input height. Rows of the canvas below a
//! shorter image are set to the documented deterministic fill: opaque black.

use vstd::prelude::*;

use crate::errors::CompositionError;
use crate::image_model::{CanonicalImage, OPAQUE};

verus! {

/// Sum of the input widths: the composite's width.
pub open spec fn sum_widths(imgs: Seq<CanonicalImage>) -> int
    decreases imgs.len(),
{
    if imgs.len() == 0 {
        0
    } else {
        sum_widths(imgs.drop_last()) + imgs.last().width
    }
}

/// Maximum of the input heights: the composite's height.
pub open spec fn max_height(imgs: Seq<CanonicalImage>) -> int
    decreases imgs.len(),
{
    if imgs.len() == 0 {
        0
    } else {
        let rest = max_height(imgs.drop_last());
        if imgs.last().height > rest {
            imgs.last().height as int
        } else {
            rest
        }
    }
}

/// Column at which input `k` is placed: the cumulative width of the inputs
/// before it.
pub open spec fn offset_of(imgs: Seq<CanonicalImage>, k: int) -> int {
    sum_widths(imgs.take(k))
}

/// Canvas cell `(gx, gy)` within the column band of an image placed at
/// column `off` holds that image's pixel where the image covers the row,
/// and the fill below it.
pub open spec fn band_cell_ok(
    data: Seq<u8>,
    w_out: int,
    img: CanonicalImage,
    off: int,
    gx: int,
    gy: int,
) -> bool {
    let base = (gy * w_out + gx) * 4;
    if gy < img.height {
        &&& data[base + 0] == img.px(gx - off, gy, 0)
        &&& data[base + 1] == img.px(gx - off, gy, 1)
        &&& data[base + 2] == img.px(gx - off, gy, 2)
        &&& data[base + 3] == img.px(gx - off, gy, 3)
    } else {
        &&& data[base + 0] == 0
        &&& data[base + 1] == 0
        &&& data[base + 2] == 0
        &&& data[base + 3] == OPAQUE
    }
}

/// `out` is the left-to-right composition of `imgs`: its width is the sum
/// of the input widths, its height their maximum, and within the column
/// band of each input the canvas copies that input's pixels and fills the
/// rows below it with opaque black. Together with
/// [`lemma_column_owner`], which shows that every canvas column lies in
/// exactly the band of one input, this pins every byte of the canvas.
pub open spec fn is_composite(out: CanonicalImage, imgs: Seq<CanonicalImage>) -> bool {
    &&& out.width == sum_widths(imgs)
    &&& out.height == max_height(imgs)
    &&& out.wf()
    &&& forall|k: int, gx: int, gy: int|
        0 <= k < imgs.len() && offset_of(imgs, k) <= gx < offset_of(imgs, k) + imgs[k].width && 0
            <= gy < out.height ==> #[trigger] band_cell_ok(
            out.data@,
            out.width as int,
            imgs[k],
            offset_of(imgs, k),
            gx,
            gy,
        )
}

/// A placement offset never exceeds the total width, and the band of input
/// `k` ends at its successor's offset.
pub proof fn lemma_offset_bounds(imgs: Seq<CanonicalImage>, k: int)
    requires
        0 <= k < imgs.len(),
    ensures
        0 <= offset_of(imgs, k),
        offset_of(imgs, k + 1) == offset_of(imgs, k) + imgs[k].width,
        offset_of(imgs, k + 1) <= sum_widths(imgs),
    decreases imgs.len(),
{
    assert(imgs.take(k + 1).drop_last() =~= imgs.take(k));
    assert(imgs.take(k + 1).last() == imgs[k]);
    lemma_sum_widths_nonneg(imgs.take(k));
    lemma_prefix_sum_le(imgs, k + 1);
}

/// Widths are nonnegative, so a width sum is too.
pub proof fn lemma_sum_widths_nonneg(imgs: Seq<CanonicalImage>)
    ensures
        0 <= sum_widths(imgs),
    decreases imgs.len(),
{
    if imgs.len() > 0 {
        lemma_sum_widths_nonneg(imgs.drop_last());
    }
}

/// A prefix of the inputs has at most the total width.
pub proof fn lemma_prefix_sum_le(imgs: Seq<CanonicalImage>, k: int)
    requires
        0 <= k <= imgs.len(),
    ensures
        sum_widths(imgs.take(k)) <= sum_widths(imgs),
    decreases imgs.len() - k,
{
    if k == imgs.len() {
        assert(imgs.take(k) =~= imgs);
    } else {
        assert(imgs.take(k + 1).drop_last() =~= imgs.take(k));
        assert(imgs.take(k + 1).last() == imgs[k]);
        lemma_prefix_sum_le(imgs, k + 1);
    }
}

/// Every column of the composite lies in the band of exactly one input:
/// the band of the `k` returned here.
pub proof fn lemma_column_owner(imgs: Seq<CanonicalImage>, gx: int) -> (k: int)
    requires
        0 <= gx < sum_widths(imgs),
    ensures
        0 <= k < imgs.len(),
        offset_of(imgs, k) <= gx < offset_of(imgs, k) + imgs[k].width,
    decreases imgs.len(),
{
    let sub = imgs.drop_last();
    if gx < sum_widths(sub) {
        let k = lemma_column_owner(sub, gx);
        assert(sub.take(k) =~= imgs.take(k));
        k
    } else {
        let k = imgs.len() - 1;
        assert(imgs.take(k) =~= sub);
        k
    }
}

/// Placement offsets grow with the input index.
pub proof fn lemma_offset_mono(imgs: Seq<CanonicalImage>, a: int, b: int)
    requires
        0 <= a <= b <= imgs.len(),
    ensures
        offset_of(imgs, a) <= offset_of(imgs, b),
    decreases b - a,
{
    if a < b {
        assert(imgs.take(a + 1).drop_last() =~= imgs.take(a));
        assert(imgs.take(a + 1).last() == imgs[a]);
        lemma_offset_mono(imgs, a + 1, b);
    }
}

/// Row-major cell positions are ordered: an earlier cell has a smaller
/// linear index.
proof fn lemma_cell_index_lt(w: int, x1: int, y1: int, x2: int, y2: int)
    requires
        0 <= x1 < w,
        0 <= x2,
        0 <= y1,
        0 <= y2,
        y1 < y2 || (y1 == y2 && x1 < x2),
    ensures
        y1 * w + x1 < y2 * w + x2,
{
    if y1 < y2 {
        assert((y1 + 1) * w <= y2 * w) by (nonlinear_arith)
            requires
                y1 + 1 <= y2,
                0 <= w,
        ;
        assert(y1 * w + x1 < (y1 + 1) * w) by (nonlinear_arith)
            requires
                x1 < w,
        ;
    }
}

/// Compose the given images side by side, left to right, in input order.
///
/// Fails on zero inputs — a zero-area canvas is never produced silently.
/// The canvas rows below a shorter input are set to opaque black, the
/// documented deterministic fill.
pub fn compose(images: &Vec<CanonicalImage>) -> (r: Result<CanonicalImage, CompositionError>)
    requires
        forall|i: int| 0 <= i < images@.len() ==> (#[trigger] images@[i]).wf(),
        sum_widths(images@) <= usize::MAX,
        sum_widths(images@) * max_height(images@) * 4 <= usize::MAX,
    ensures
        images@.len() == 0 <==> r is Err,
        r is Err ==> r->Err_0 == CompositionError::NoInputImages,
        r is Ok ==> is_composite(r->Ok_0, images@),
{
    let n = images.len();
    if n == 0 {
        return Err(CompositionError::NoInputImages);
    }
    let ghost iseq = images@;

    // Total width.
    let mut w_out: usize = 0;
    let mut k: usize = 0;
    while k < n
        invariant
            n == iseq.len(),
            iseq == images@,
            sum_widths(iseq) <= usize::MAX,
            k <= n,
            w_out == offset_of(iseq, k as int),
        decreases n - k,
    {
        proof {
            lemma_offset_bounds(iseq, k as int);
        }
        w_out = w_out + images[k].width;
        k = k + 1;
    }
    proof {
        assert(iseq.take(n as int) =~= iseq);
    }

    // Maximum height.
    let mut h_out: usize = 0;
    k = 0;
    while k < n
        invariant
            n == iseq.len(),
            iseq == images@,
            k <= n,
            h_out == max_height(iseq.take(k as int)),
        decreases n - k,
    {
        proof {
            assert(iseq.take(k + 1).drop_last() =~= iseq.take(k as int));
            assert(iseq.take(k + 1).last() == iseq[k as int]);
        }
        if images[k].height > h_out {
            h_out = images[k].height;
        }
        k = k + 1;
    }
    proof {
        assert(iseq.take(n as int) =~= iseq);
    }

    // Fill the canvas row by row; within a row, band by band in input order.
    let mut data: Vec<u8> = Vec::new();
    let mut y: usize = 0;
    while y < h_out
        invariant
            n == iseq.len(),
            iseq == images@,
            forall|i: int| 0 <= i < iseq.len() ==> (#[trigger] iseq[i]).wf(),
            w_out == sum_widths(iseq),
            h_out == max_height(iseq),
            w_out * h_out * 4 <= usize::MAX,
            y <= h_out,
            data@.len() == y * w_out * 4,
            forall|k2: int, gx: int, gy: int|
                0 <= k2 < iseq.len() && offset_of(iseq, k2) <= gx < offset_of(iseq, k2)
                    + iseq[k2].width && 0 <= gy < y ==> #[trigger] band_cell_ok(
                    data@,
                    w_out as int,
                    iseq[k2],
                    offset_of(iseq, k2),
                    gx,
                    gy,
                ),
        decreases h_out - y,
    {
        let mut k: usize = 0;
        proof {
            assert(iseq.take(0) =~= Seq::<CanonicalImage>::empty());
            assert forall|k2: int, gx: int|
                0 <= k2 < iseq.len() && offset_of(iseq, k2) <= gx < offset_of(iseq, k2)
                    + iseq[k2].width && gx < offset_of(iseq, 0) implies #[trigger] band_cell_ok(
                data@,
                w_out as int,
                iseq[k2],
                offset_of(iseq, k2),
                gx,
                y as int,
            ) by {
                lemma_offset_bounds(iseq, k2);
            }
        }
        while k < n
            invariant
                n == iseq.len(),
                iseq == images@,
                forall|i: int| 0 <= i < iseq.len() ==> (#[trigger] iseq[i]).wf(),
                w_out == sum_widths(iseq),
                h_out == max_height(iseq),
                w_out * h_out * 4 <= usize::MAX,
                y < h_out,
                k <= n,
                data@.len() == (y * w_out + offset_of(iseq, k as int)) * 4,
                forall|k2: int, gx: int, gy: int|
                    0 <= k2 < iseq.len() && offset_of(iseq, k2) <= gx < offset_of(iseq, k2)
                        + iseq[k2].width && 0 <= gy < y ==> #[trigger] band_cell_ok(
                        data@,
                        w_out as int,
                        iseq[k2],
                        offset_of(iseq, k2),
                        gx,
                        gy,
                    ),
                forall|k2: int, gx: int|
                    0 <= k2 < iseq.len() && offset_of(iseq, k2) <= gx < offset_of(iseq, k2)
                        + iseq[k2].width && gx < offset_of(iseq, k as int)
                        ==> #[trigger] band_cell_ok(
                        data@,
                        w_out as int,
                        iseq[k2],
                        offset_of(iseq, k2),
                        gx,
                        y as int,
                    ),
            decreases n - k,
        {
            let iw = images[k].width;
            let ih = images[k].height;
            let ilen = images[k].data.len();
            let ghost off = offset_of(iseq, k as int);
            proof {
                lemma_offset_bounds(iseq, k as int);
            }
            let mut x: usize = 0;
            while x < iw
                invariant
                    n == iseq.len(),
                    iseq == images@,
                    forall|i: int| 0 <= i < iseq.len() ==> (#[trigger] iseq[i]).wf(),
                    w_out == sum_widths(iseq),
                    h_out == max_height(iseq),
                    w_out * h_out * 4 <= usize::MAX,
                    y < h_out,
                    k < n,
                    x <= iw,
                    iw == iseq[k as int].width,
                    ih == iseq[k as int].height,
                    ilen == iseq[k as int].data@.len(),
                    off == offset_of(iseq, k as int),
                    0 <= off,
                    off + iw <= w_out,
                    data@.len() == (y * w_out + off + x) * 4,
                    forall|k2: int, gx: int, gy: int|
                        0 <= k2 < iseq.len() && offset_of(iseq, k2) <= gx < offset_of(iseq, k2)
                            + iseq[k2].width && 0 <= gy < y ==> #[trigger] band_cell_ok(
                            data@,
                            w_out as int,
                            iseq[k2],
                            offset_of(iseq, k2),
                            gx,
                            gy,
                        ),
                    forall|k2: int, gx: int|
                        0 <= k2 < iseq.len() && offset_of(iseq, k2) <= gx < offset_of(iseq, k2)
                            + iseq[k2].width && gx < off + x ==> #[trigger] band_cell_ok(
                            data@,
                            w_out as int,
                            iseq[k2],
                            offset_of(iseq, k2),
                            gx,
                            y as int,
                        ),
                decreases iw - x,
            {
                proof {
                    assert((y * w_out + off + x) * 4 + 4 <= w_out * h_out * 4) by (nonlinear_arith)
                        requires
                            0 <= y < h_out,
                            0 <= off,
                            0 <= x,
                            off + x < w_out,
                    ;
                }
                let ghost prev = data@;
                if y < ih {
                    proof {
                        assert(iseq[k as int].wf());
                        assert((y * iw + x) * 4 + 4 <= iw * ih * 4) by (nonlinear_arith)
                            requires
                                0 <= x < iw,
                                0 <= y < ih,
                        ;
                        assert(ilen == iw * ih * 4);
                    }
                    let si = (y * iw + x) * 4;
                    data.push(images[k].data[si]);
                    data.push(images[k].data[si + 1]);
                    data.push(images[k].data[si + 2]);
                    data.push(images[k].data[si + 3]);
                } else {
                    data.push(0);
                    data.push(0);
                    data.push(0);
                    data.push(OPAQUE);
                }
                proof {
                    assert(data@.len() == prev.len() + 4);
                    lemma_offset_bounds(iseq, k as int);
                    assert(band_cell_ok(
                        data@,
                        w_out as int,
                        iseq[k as int],
                        off,
                        off + x,
                        y as int,
                    ));
                    assert forall|k2: int, gx: int, gy: int|
                        0 <= k2 < iseq.len() && offset_of(iseq, k2) <= gx < offset_of(iseq, k2)
                            + iseq[k2].width && 0 <= gy < y implies #[trigger] band_cell_ok(
                        data@,
                        w_out as int,
                        iseq[k2],
                        offset_of(iseq, k2),
                        gx,
                        gy,
                    ) by {
                        lemma_offset_bounds(iseq, k2);
                        lemma_prefix_sum_le(iseq, k2 + 1);
                        lemma_cell_index_lt(w_out as int, gx, gy, off + x, y as int);
                        assert(band_cell_ok(prev, w_out as int, iseq[k2], offset_of(iseq, k2), gx, gy));
                    }
                    assert forall|k2: int, gx: int|
                        0 <= k2 < iseq.len() && offset_of(iseq, k2) <= gx < offset_of(iseq, k2)
                            + iseq[k2].width && gx < off + x + 1 implies #[trigger] band_cell_ok(
                        data@,
                        w_out as int,
                        iseq[k2],
                        offset_of(iseq, k2),
                        gx,
                        y as int,
                    ) by {
                        lemma_offset_bounds(iseq, k2);
                        if k2 < k {
                            lemma_offset_mono(iseq, k2 + 1, k as int);
                            assert(band_cell_ok(
                                prev,
                                w_out as int,
                                iseq[k2],
                                offset_of(iseq, k2),
                                gx,
                                y as int,
                            ));
                        } else if k2 == k {
                            if gx < off + x {
                                assert(band_cell_ok(
                                    prev,
                                    w_out as int,
                                    iseq[k2],
                                    offset_of(iseq, k2),
                                    gx,
                                    y as int,
                                ));
                            }
                        } else {
                            lemma_offset_mono(iseq, k as int + 1, k2);
                        }
                    }
                }
                x = x + 1;
            }
            proof {
                lemma_offset_bounds(iseq, k as int);
            }
            k = k + 1;
        }
        proof {
            assert(iseq.take(n as int) =~= iseq);
            assert((y * w_out + w_out) * 4 == (y + 1) * w_out * 4) by (nonlinear_arith);
            assert forall|k2: int, gx: int, gy: int|
                0 <= k2 < iseq.len() && offset_of(iseq, k2) <= gx < offset_of(iseq, k2)
                    + iseq[k2].width && 0 <= gy < y + 1 implies #[trigger] band_cell_ok(
                data@,
                w_out as int,
                iseq[k2],
                offset_of(iseq, k2),
                gx,
                gy,
            ) by {
                if gy == y {
                    lemma_offset_bounds(iseq, k2);
                    lemma_offset_mono(iseq, k2 + 1, n as int);
                    assert(band_cell_ok(
                        data@,
                        w_out as int,
                        iseq[k2],
                        offset_of(iseq, k2),
                        gx,
                        y as int,
                    ));
                }
            }
        }
        y = y + 1;
    }
    proof {
        assert(w_out * h_out * 4 == h_out * w_out * 4) by (nonlinear_arith);
    }
    let out = CanonicalImage { width: w_out, height: h_out, data };
    Ok(out)
}

/// The composite height is truly the maximum of the input heights: an
/// upper bound that one of the inputs attains.
proof fn lemma_max_height_is_max(imgs: Seq<CanonicalImage>)
    requires
        imgs.len() > 0,
    ensures
        forall|k: int| 0 <= k < imgs.len() ==> (#[trigger] imgs[k]).height <= max_height(imgs),
        exists|k: int| 0 <= k < imgs.len() && (#[trigger] imgs[k]).height == max_height(imgs),
    decreases imgs.len(),
{
    let rest = imgs.drop_last();
    if imgs.len() == 1 {
        assert(rest =~= Seq::<CanonicalImage>::empty());
        assert(max_height(rest) == 0);
        assert(imgs[0].height == max_height(imgs));
    } else {
        lemma_max_height_is_max(rest);
        if imgs.last().height > max_height(rest) {
            assert(imgs[imgs.len() - 1].height == max_height(imgs));
        } else {
            let k = choose|k: int|
                0 <= k < rest.len() && (#[trigger] rest[k]).height == max_height(rest);
            assert(imgs[k].height == max_height(imgs));
        }
        assert forall|k: int| 0 <= k < imgs.len() implies (#[trigger] imgs[k]).height
            <= max_height(imgs) by {
            if k < imgs.len() - 1 {
                assert(rest[k] == imgs[k]);
                assert(rest[k].height <= max_height(rest));
            }
        }
    }
}

/// Composition width/height law, free of any machine limit: a composite's
/// width is the sum of the input widths, and its height is the maximum of
/// the input heights — an upper bound that one of the inputs attains, so
/// neither an average nor simply the first input's height.
pub proof fn lemma_composite_dimensions(out: CanonicalImage, imgs: Seq<CanonicalImage>)
    requires
        imgs.len() > 0,
        is_composite(out, imgs),
    ensures
        out.width == sum_widths(imgs),
        out.height == max_height(imgs),
        forall|k: int| 0 <= k < imgs.len() ==> (#[trigger] imgs[k]).height <= out.height,
        exists|k: int| 0 <= k < imgs.len() && (#[trigger] imgs[k]).height == out.height,
{
    lemma_max_height_is_max(imgs);
}

/// Composition of a single image is the identity: the composite is
/// pixel-identical to its one input.
pub proof fn lemma_compose_identity(out: CanonicalImage, imgs: Seq<CanonicalImage>)
    requires
        imgs.len() == 1,
        imgs[0].wf(),
        is_composite(out, imgs),
    ensures
        crate::image_model::same_image(out, imgs[0]),
{
    assert(imgs.drop_last() =~= Seq::<CanonicalImage>::empty());
    assert(sum_widths(imgs.drop_last()) == 0);
    assert(max_height(imgs.drop_last()) == 0);
    assert(sum_widths(imgs) == imgs[0].width);
    assert(max_height(imgs) == imgs[0].height);
    assert(imgs.take(0) =~= Seq::<CanonicalImage>::empty());
    assert(offset_of(imgs, 0) == 0);
    assert forall|x: int, y: int, c: int|
        0 <= x < out.width && 0 <= y < out.height && 0 <= c < 4 implies #[trigger] out.px(x, y, c)
        == imgs[0].px(x, y, c) by {
        assert(band_cell_ok(out.data@, out.width as int, imgs[0], 0, x, y));
    }
}

/// If every input is fully opaque, so is the composite: copied pixels keep
/// their source's opaque alpha and the fill is itself opaque.
pub proof fn lemma_composite_opaque(out: CanonicalImage, imgs: Seq<CanonicalImage>)
    requires
        is_composite(out, imgs),
        forall|i: int| 0 <= i < imgs.len() ==> (#[trigger] imgs[i]).opaque(),
    ensures
        out.opaque(),
{
    assert forall|x: int, y: int| 0 <= x < out.width && 0 <= y < out.height implies #[trigger] out.px(
        x,
        y,
        3,
    ) == OPAQUE by {
        let k = lemma_column_owner(imgs, x);
        assert(band_cell_ok(out.data@, out.width as int, imgs[k], offset_of(imgs, k), x, y));
        if y < imgs[k].height {
            assert(imgs[k].px(x - offset_of(imgs, k), y, 3) == OPAQUE);
        }
    }
}

} // verus!
