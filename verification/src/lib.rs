//! Renders raster images as ASCII art.
//!
//! An image is sampled on a fixed grid, the brightness of every sampled pixel
//! is quantised against an ordered palette of characters, and the characters
//! are laid out line by line.
//!
//! [`Bitmap`] holds the pixels of a decoded image, [`AsciiPrinter`] the
//! configuration of a rendering, and [`resolve_source`] decides where the
//! path of the image is taken from. The modules `grid` and `intensity` say
//! what a rendering is.

pub mod bitmap;
pub mod error;
pub mod grid;
pub mod input;
pub mod intensity;
pub mod picture;
pub mod printer;
pub mod text;

pub use bitmap::Bitmap;
pub use error::{AppError, ErrorKind};
pub use input::{needs_stdin, resolve_source, InputError, NO_SOURCE_HINT};
pub use intensity::{get_pixel_intensity, palette_index, INTENSITY_LIMIT, UNIT};
pub use printer::{render_bitmap, AsciiPrinter, RenderError, DEFAULT_CHARS, DEFAULT_SCALE};
pub use text::{strip_whitespace, trim};
