//! How a decoded image of the `image` crate is read.
//!
//! Decoded images are values of `image::DynamicImage`. The verifier does not
//! look inside them: the items of this module are believed, not proved.

use image::GenericImageView;
use vstd::prelude::*;

verus! {

/// A decoded image of the `image` crate, opaque to the verifier.
#[verifier::external_type_specification]
#[verifier::external_body]
pub struct ExDynamicImage(image::DynamicImage);

/// The pixels of an image as its `get_pixel` gives them: one row after
/// another from the top, each row from the left, each pixel as its red, green
/// and blue channels.
pub uninterp spec fn image_rows(img: image::DynamicImage) -> Seq<Seq<(u8, u8, u8)>>;

/// Calls `GenericImageView::dimensions` on a `DynamicImage`, which gives the
/// image's width and height. The contract claims that the height is the
/// number of rows and the width the length of each row.
#[verifier::external_body]
pub(crate) fn image_dimensions(img: &image::DynamicImage) -> (dims: (u32, u32))
    ensures
        dims.1 == image_rows(*img).len(),
        forall|y: int| 0 <= y < dims.1 ==> (#[trigger] image_rows(*img)[y]).len() == dims.0,
{
    img.dimensions()
}

/// Calls `GenericImageView::get_pixel` on a `DynamicImage`, which converts the
/// pixel in column `x` of row `y` to 8-bit RGBA and panics outside the image,
/// and keeps the first three channels. The contract claims that these are the
/// entry of `image_rows` at that place.
#[verifier::external_body]
pub(crate) fn image_pixel(img: &image::DynamicImage, x: u32, y: u32) -> (rgb: (u8, u8, u8))
    requires
        y < image_rows(*img).len(),
        x < image_rows(*img)[y as int].len(),
    ensures
        rgb == image_rows(*img)[y as int][x as int],
{
    let pixel = img.get_pixel(x, y);
    (pixel[0], pixel[1], pixel[2])
}

} // verus!
