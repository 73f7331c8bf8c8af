//! The window icon: image bytes decoded into RGBA pixels.

use vstd::prelude::*;

verus! {

/// An image as rows of RGBA pixels, four bytes each.
#[derive(Clone, Debug, PartialEq, Eq)]
pub struct IconImage {
    pub rgba: Vec<u8>,
    pub width: u32,
    pub height: u32,
}

/// What decoding image bytes into RGBA pixels gives: the pixel bytes, the
/// width and the height, or `None` where the bytes are not an image of a
/// supported format. It depends on the bytes alone.
pub uninterp spec fn decoded_rgba(bytes: Seq<u8>) -> Option<(Seq<u8>, u32, u32)>;

/// Calls `image::load_from_memory`, then `into_rgba8`, `dimensions` and
/// `into_raw` on the image. The result is named by `decoded_rgba` of the
/// bytes; of a decoded image it is claimed too that its buffer holds at least
/// four bytes per pixel, which every `ImageBuffer` of `image` keeps.
#[verifier::external_body]
fn decode_rgba(bytes: &[u8]) -> (r: Option<IconImage>)
    ensures
        match r {
            Some(i) => decoded_rgba(bytes@) == Some((i.rgba@, i.width, i.height)) && i.rgba@.len()
                >= 4 * i.width * i.height,
            None => decoded_rgba(bytes@) is None,
        },
{
    match image::load_from_memory(bytes) {
        Ok(decoded) => {
            let pixels = decoded.into_rgba8();
            let (width, height) = pixels.dimensions();
            Some(IconImage { rgba: pixels.into_raw(), width, height })
        },
        Err(_) => None,
    }
}

/// The window icon decoded from image bytes, or `None` where the bytes are not
/// an image of a supported format.
pub fn icon_image(bytes: &[u8]) -> (r: Option<IconImage>)
    ensures
        r is None <==> decoded_rgba(bytes@) is None,
        r matches Some(i) ==> decoded_rgba(bytes@) == Some((i.rgba@, i.width, i.height)),
        r matches Some(i) ==> i.rgba@.len() >= 4 * i.width * i.height,
{
    decode_rgba(bytes)
}

} // verus!
