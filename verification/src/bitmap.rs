//! Decoded images as plain rows of pixels.

use crate::picture::{image_dimensions, image_pixel, image_rows};
use vstd::prelude::*;

verus! {

/// The rows of pixels that a vector of rows holds.
pub open spec fn pixel_rows(rows: Seq<Vec<(u8, u8, u8)>>) -> Seq<Seq<(u8, u8, u8)>> {
    Seq::new(rows.len(), |y: int| rows[y]@)
}

/// Whether all rows have the length `width`.
pub open spec fn has_width(rows: Seq<Seq<(u8, u8, u8)>>, width: nat) -> bool {
    forall|y: int| 0 <= y < rows.len() ==> (#[trigger] rows[y]).len() == width
}

/// Whether all rows are equally long.
pub open spec fn is_rectangular(rows: Seq<Seq<(u8, u8, u8)>>) -> bool {
    rows.len() > 0 ==> has_width(rows, rows[0].len())
}

/// An image in memory: rows of equally many pixels, from the top, each pixel
/// with its red, green and blue channel. It is never changed once made.
#[derive(Debug, PartialEq, Eq)]
pub struct Bitmap {
    width: usize,
    rows: Vec<Vec<(u8, u8, u8)>>,
}

impl View for Bitmap {
    type V = Seq<Seq<(u8, u8, u8)>>;

    closed spec fn view(&self) -> Seq<Seq<(u8, u8, u8)>> {
        pixel_rows(self.rows@)
    }
}

impl Bitmap {
    #[verifier::type_invariant]
    spec fn well_formed(self) -> bool {
        has_width(pixel_rows(self.rows@), self.width as nat)
    }

    /// The number of pixels in a row. Where there are rows, it is their
    /// length.
    pub closed spec fn spec_width(&self) -> nat {
        self.width as nat
    }

    /// Makes an image of the given rows, if they are equally long. Without
    /// rows the image has no columns either.
    pub fn from_rows(rows: Vec<Vec<(u8, u8, u8)>>) -> (out: Option<Bitmap>)
        ensures
            out is Some <==> is_rectangular(pixel_rows(rows@)),
            out matches Some(bitmap) ==> {
                &&& bitmap@ == pixel_rows(rows@)
                &&& bitmap.spec_width() == if rows@.len() > 0 {
                    rows@[0]@.len()
                } else {
                    0
                }
            },
    {
        let width = if rows.len() > 0 {
            rows[0].len()
        } else {
            0
        };
        for y in 0..rows.len()
            invariant
                rows@.len() > 0 ==> width == rows@[0]@.len(),
                forall|r: int| 0 <= r < y ==> (#[trigger] pixel_rows(rows@)[r]).len() == width,
        {
            if rows[y].len() != width {
                assert(pixel_rows(rows@)[y as int].len() != pixel_rows(rows@)[0].len());
                return None;
            }
        }
        Some(Bitmap { width, rows })
    }

    /// Copies the pixels of a decoded image.
    pub fn from_image(img: &image::DynamicImage) -> (out: Bitmap)
        ensures
            out@ == image_rows(*img),
            out@.len() > 0 ==> out.spec_width() == out@[0].len(),
    {
        let (width, height) = image_dimensions(img);
        let mut rows: Vec<Vec<(u8, u8, u8)>> = Vec::new();
        for y in 0..height
            invariant
                height == image_rows(*img).len(),
                has_width(image_rows(*img), width as nat),
                rows@.len() == y,
                forall|r: int| 0 <= r < y ==> (#[trigger] rows@[r])@ == image_rows(*img)[r],
        {
            let mut row: Vec<(u8, u8, u8)> = Vec::new();
            for x in 0..width
                invariant
                    y < image_rows(*img).len(),
                    image_rows(*img)[y as int].len() == width,
                    row@ == image_rows(*img)[y as int].take(x as int),
            {
                row.push(image_pixel(img, x, y));
            }
            rows.push(row);
        }
        assert(pixel_rows(rows@) =~= image_rows(*img));
        Bitmap { width: width as usize, rows }
    }

    /// The number of pixels in a row.
    pub fn width(&self) -> (width: usize)
        ensures
            width == self.spec_width(),
            has_width(self@, width as nat),
    {
        proof {
            use_type_invariant(self);
        }
        self.width
    }

    /// The number of rows.
    pub fn height(&self) -> (height: usize)
        ensures
            height == self@.len(),
    {
        self.rows.len()
    }

    /// The pixel in column `x` of row `y`.
    pub fn pixel(&self, x: usize, y: usize) -> (rgb: (u8, u8, u8))
        requires
            y < self@.len(),
            x < self@[y as int].len(),
        ensures
            rgb == self@[y as int][x as int],
    {
        self.rows[y][x]
    }
}

} // verus!
