use image::{DynamicImage, GenericImageView};
use vstd::prelude::*;

verus! {

#[verifier::external_type_specification]
#[verifier::external_body]
pub struct ExDynamicImage(DynamicImage);

/// The pixels of a decoded image as 8-bit RGBA, keyed by `(column, row)`.
pub uninterp spec fn texels(img: DynamicImage) -> Map<(u32, u32), (u8, u8, u8, u8)>;

/// The width and height of a decoded image, in pixels.
pub uninterp spec fn texture_size(img: DynamicImage) -> (u32, u32);

/// Relies on `DynamicImage::width`: the image's width in pixels.
pub assume_specification[ DynamicImage::width ](img: &DynamicImage) -> (r: u32)
    ensures
        r == texture_size(*img).0,
;

/// Relies on `DynamicImage::height`: the image's height in pixels.
pub assume_specification[ DynamicImage::height ](img: &DynamicImage) -> (r: u32)
    ensures
        r == texture_size(*img).1,
;

/// Relies on `GenericImageView::get_pixel` of `DynamicImage`: the pixel at
/// `(x, y)` converted to RGBA; it panics outside the image.
#[verifier::external_body]
fn texel(img: &DynamicImage, x: u32, y: u32) -> (r: (u8, u8, u8, u8))
    requires
        x < texture_size(*img).0,
        y < texture_size(*img).1,
    ensures
        r == texels(*img)[(x, y)],
{
    let p = img.get_pixel(x, y).0;
    (p[0], p[1], p[2], p[3])
}

/// Nearest-neighbour lookup: the RGBA pixel at column `x`, row `y`, or `None`
/// where that position lies outside the texture.
pub fn sample_nearest(tex: &DynamicImage, x: u32, y: u32) -> (r: Option<(u8, u8, u8, u8)>)
    ensures
        r == (if x < texture_size(*tex).0 && y < texture_size(*tex).1 {
            Some(texels(*tex)[(x, y)])
        } else {
            None
        }),
{
    if x < tex.width() && y < tex.height() {
        Some(texel(tex, x, y))
    } else {
        None
    }
}

} // verus!
