//! The window icon.

use vstd::prelude::*;

verus! {

/// An icon as the window system wants it: four bytes a pixel.
pub struct Icon {
    pub rgba: Vec<u8>,
    pub width: u32,
    pub height: u32,
}

/// The pixels, width and height of a PNG file, if it can be decoded.
pub uninterp spec fn decoded(bytes: Seq<u8>) -> Option<(Seq<u8>, u32, u32)>;

/// A decoded image in plain form.
pub open spec fn pixels(image: Option<(Vec<u8>, u32, u32)>) -> Option<(Seq<u8>, u32, u32)> {
    match image {
        Some((rgba, w, h)) => Some((rgba@, w, h)),
        None => None,
    }
}

/// `image::load_from_memory_with_format` for PNG, converted to RGBA: the pixels
/// with the image's width and height, or none for a file that cannot be decoded
/// as a PNG. Which of the two, and which pixels, is a function of the bytes
/// alone: with the format given, no registered hook is consulted.
#[verifier::external_body]
fn decode(bytes: &[u8]) -> (r: Option<(Vec<u8>, u32, u32)>)
    ensures
        pixels(r) == decoded(bytes@),
{
    let img = image::load_from_memory_with_format(bytes, image::ImageFormat::Png).ok()?.into_rgba8();
    let (w, h) = img.dimensions();
    Some((img.into_raw(), w, h))
}

/// The icon for a decoded image; a single transparent pixel if there is none.
pub fn icon_or_blank(image: Option<(Vec<u8>, u32, u32)>) -> (icon: Icon)
    ensures
        match image {
            Some((rgba, w, h)) => icon.rgba@ == rgba@ && icon.width == w && icon.height == h,
            None => icon.rgba@ == seq![0u8, 0u8, 0u8, 0u8] && icon.width == 1 && icon.height == 1,
        },
{
    match image {
        Some((rgba, width, height)) => Icon { rgba, width, height },
        None => {
            let mut rgba: Vec<u8> = Vec::new();
            rgba.push(0);
            rgba.push(0);
            rgba.push(0);
            rgba.push(0);
            assert(rgba@ =~= seq![0u8, 0u8, 0u8, 0u8]);
            Icon { rgba, width: 1, height: 1 }
        },
    }
}

/// Decodes a PNG into an icon, a single transparent pixel if it is malformed.
pub fn decode_icon(bytes: &[u8]) -> (icon: Icon)
    ensures
        match decoded(bytes@) {
            Some((rgba, w, h)) => icon.rgba@ == rgba && icon.width == w && icon.height == h,
            None => icon.rgba@ == seq![0u8, 0u8, 0u8, 0u8] && icon.width == 1 && icon.height == 1,
        },
{
    icon_or_blank(decode(bytes))
}

} // verus!
