//! PNG encoding of canonical images. The encoder itself is an external
//! collaborator; only the call crosses this boundary, and everything the
//! pipeline needs of its result is stated over [`png_encoding`].

use vstd::prelude::*;

use crate::image_model::CanonicalImage;

verus! {

/// The PNG byte stream that encoding a `width`-by-`height` tightly packed
/// RGBA buffer produces. The encoder is deterministic, so its output is a
/// function of these arguments alone; the stream itself is named rather
/// than described.
pub uninterp spec fn png_encoding(width: u32, height: u32, data: Seq<u8>) -> Seq<u8>;

/// Relies on repng::encode, writing into a `Vec<u8>` sink: the encoder is
/// deterministic in the dimensions and pixel bytes, begins the stream with
/// the fixed eight-byte PNG signature, and returns its only errors from
/// the sink — a `Vec`'s `Write` never fails — so the call always succeeds.
/// It panics only on data that is not a whole number of `width * 4`-byte
/// rows, excluded here by the exact tightly-packed length and a positive
/// width.
#[verifier::external_body]
fn encode_rgba(width: u32, height: u32, data: &Vec<u8>) -> (r: Vec<u8>)
    requires
        0 < width,
        data@.len() == width * height * 4,
    ensures
        r@ == png_encoding(width, height, data@),
        r@.len() >= 8 && r@[0] == 0x89 && r@[1] == 0x50 && r@[2] == 0x4e && r@[3] == 0x47,
{
    let mut out: Vec<u8> = Vec::new();
    repng::encode(&mut out, width, height, data.as_slice())
        .expect("writing into a Vec sink cannot fail");
    out
}

/// Encode a canonical image as a standard RGBA PNG byte stream; the caller
/// persists the bytes. Encoding cannot fail: only writing the bytes out —
/// the caller's part — can.
pub fn encode_image(img: &CanonicalImage) -> (r: Vec<u8>)
    requires
        img.wf(),
        0 < img.width,
        img.width <= u32::MAX,
        img.height <= u32::MAX,
    ensures
        r@ == png_encoding(img.width as u32, img.height as u32, img.data@),
        r@.len() >= 8 && r@[0] == 0x89 && r@[1] == 0x50 && r@[2] == 0x4e && r@[3] == 0x47,
{
    encode_rgba(img.width as u32, img.height as u32, &img.data)
}

} // verus!
