//! The renderer and its configuration.

use crate::bitmap::Bitmap;
use crate::grid::{
    ascii_art, joined, lemma_joined_push, lemma_sample_count_monotonic,
    lemma_sample_count_step, lemma_sample_count_zero, sample_count, sampled_line, sampled_lines,
};
use crate::intensity::{
    char_index, get_pixel_intensity, lemma_char_index_in_bounds, palette_index, INTENSITY_LIMIT,
};
use crate::text::{strip_whitespace, without_whitespace};
use vstd::prelude::*;

verus! {

/// Why nothing was rendered.
#[derive(Debug, PartialEq, Eq)]
pub enum RenderError {
    /// No image was ever attached.
    NoImage,
    /// The image could not be loaded; the decoder's message is kept.
    LoadFailed(String),
}

/// The default list of characters from least to most intense, separated by
/// spaces for the reader's sake.
pub const DEFAULT_CHARS: &'static str = ". ' , ^ \" ~ + - = # @ $";

/// The default distance between two sampled columns.
pub const DEFAULT_SCALE: u32 = 3;

/// The default palette: a space, then the characters of `DEFAULT_CHARS`.
pub open spec fn default_palette() -> Seq<char> {
    seq![' ', '.', '\'', ',', '^', '"', '~', '+', '-', '=', '#', '@', '$']
}

/// The default palette is what `DEFAULT_CHARS` holds besides its spaces,
/// behind the leading space.
pub proof fn lemma_default_chars()
    ensures
        default_palette() == seq![' '] + without_whitespace(DEFAULT_CHARS@),
{
    reveal_strlit(". ' , ^ \" ~ + - = # @ $");
    reveal_with_fuel(Seq::filter, 24);
    assert(DEFAULT_CHARS@ =~= seq![
        '.', ' ', '\'', ' ', ',', ' ', '^', ' ', '"', ' ', '~', ' ',
        '+', ' ', '-', ' ', '=', ' ', '#', ' ', '@', ' ', '$',
    ]);
    assert(default_palette() =~= seq![' '] + without_whitespace(DEFAULT_CHARS@));
}

/// The image of a configuration.
#[derive(Debug)]
enum ImageSlot {
    Unloaded,
    Loaded(Bitmap),
    LoadFailed(String),
}

/// What a configuration knows of its image.
pub enum ImageState {
    /// No image was attached yet.
    Unloaded,
    /// The image was loaded and has these rows of pixels.
    Loaded(Seq<Seq<(u8, u8, u8)>>),
    /// Loading failed with this message.
    LoadFailed(Seq<char>),
}

/// A configuration as a mathematical value.
pub struct PrinterModel {
    pub image: ImageState,
    /// The characters from darkest to brightest.
    pub palette: Seq<char>,
    /// The distance between two sampled columns.
    pub scale: nat,
}

/// An image together with the palette and the scale to render it with.
#[derive(Debug)]
pub struct AsciiPrinter {
    src_img: ImageSlot,
    chars: Vec<char>,
    scale: u32,
}

impl View for AsciiPrinter {
    type V = PrinterModel;

    closed spec fn view(&self) -> PrinterModel {
        PrinterModel {
            image: match self.src_img {
                ImageSlot::Unloaded => ImageState::Unloaded,
                ImageSlot::Loaded(bitmap) => ImageState::Loaded(bitmap@),
                ImageSlot::LoadFailed(detail) => ImageState::LoadFailed(detail@),
            },
            palette: self.chars@,
            scale: self.scale as nat,
        }
    }
}

/// What rendering the configuration `model` gives: the text of its image, or
/// the reason why there is no image to render.
pub open spec fn is_rendering_of(out: Result<String, RenderError>, model: PrinterModel) -> bool {
    match model.image {
        ImageState::Unloaded => out matches Err(RenderError::NoImage),
        ImageState::LoadFailed(detail) => out matches Err(RenderError::LoadFailed(d)) && d@ == detail,
        ImageState::Loaded(rows) => out matches Ok(text) && text@ == ascii_art(
            rows,
            model.palette,
            model.scale,
        ),
    }
}

/// Picks the character for an intensity from a palette.
fn pick_char(palette: &Vec<char>, intensity: u32) -> (c: char)
    requires
        palette@.len() >= 1,
        intensity < INTENSITY_LIMIT,
    ensures
        c == palette@[char_index(intensity as nat, palette@.len()) as int],
{
    let index = palette_index(intensity, palette.len());
    palette[index]
}

/// Appends the line for row `y` of the image, and its line feed, to `out`.
fn push_line(bitmap: &Bitmap, y: usize, palette: &Vec<char>, scale: u32, out: &mut String)
    requires
        y < bitmap@.len(),
        palette@.len() >= 1,
        scale >= 1,
    ensures
        final(out)@ == old(out)@ + sampled_line(bitmap@[y as int], palette@, scale as nat).push('\n'),
{
    let width = bitmap.width();
    let ghost before = out@;
    let ghost row = bitmap@[y as int];
    let ghost line = sampled_line(row, palette@, scale as nat);
    let ghost mut done: nat = 0;
    proof {
        lemma_sample_count_zero(scale as nat);
    }
    for x in 0..width
        invariant
            y < bitmap@.len(),
            row == bitmap@[y as int],
            row.len() == width,
            palette@.len() >= 1,
            scale >= 1,
            line == sampled_line(row, palette@, scale as nat),
            done == sample_count(x as nat, scale as nat),
            done <= line.len(),
            out@ == before + line.take(done as int),
    {
        proof {
            lemma_sample_count_step(x as nat, scale as nat);
            lemma_sample_count_monotonic((x + 1) as nat, width as nat, scale as nat);
        }
        if x % (scale as usize) == 0 {
            let (red, green, blue) = bitmap.pixel(x, y);
            let c = pick_char(palette, get_pixel_intensity(red, green, blue));
            out.push(c);
            proof {
                assert(line.take((done + 1) as int) =~= line.take(done as int).push(c));
                done = done + 1;
            }
        }
    }
    out.push('\n');
    proof {
        assert(line.take(done as int) =~= line);
    }
}

/// Renders an image with a palette and a scale: the text of its character
/// grid, one line for every sampled row, followed by an empty line.
pub fn render_bitmap(bitmap: &Bitmap, palette: &Vec<char>, scale: u32) -> (text: String)
    requires
        palette@.len() >= 1,
        scale >= 1,
    ensures
        text@ == ascii_art(bitmap@, palette@, scale as nat),
{
    let height = bitmap.height();
    let stride: u64 = 2 * (scale as u64);
    let mut out = String::new();
    let ghost lines = sampled_lines(bitmap@, palette@, scale as nat);
    let ghost mut done: nat = 0;
    proof {
        lemma_sample_count_zero(stride as nat);
    }
    for y in 0..height
        invariant
            bitmap@.len() == height,
            palette@.len() >= 1,
            scale >= 1,
            stride == 2 * scale,
            lines == sampled_lines(bitmap@, palette@, scale as nat),
            done == sample_count(y as nat, stride as nat),
            done <= lines.len(),
            out@ == joined(lines.take(done as int)),
    {
        proof {
            lemma_sample_count_step(y as nat, stride as nat);
            lemma_sample_count_monotonic((y + 1) as nat, height as nat, stride as nat);
        }
        if (y as u64) % stride == 0 {
            push_line(bitmap, y, palette, scale, &mut out);
            proof {
                assert(lines.take((done + 1) as int) =~= lines.take(done as int).push(
                    lines[done as int],
                ));
                lemma_joined_push(lines.take(done as int), lines[done as int]);
                done = done + 1;
            }
        }
    }
    proof {
        assert(lines.take(done as int) =~= lines);
    }
    out.push('\n');
    out
}

impl AsciiPrinter {
    #[verifier::type_invariant]
    spec fn well_formed(self) -> bool {
        &&& self.chars@.len() >= 1
        &&& self.chars@[0] == ' '
        &&& self.scale >= 1
    }

    /// Attaches the outcome of loading an image: the decoded image, or the
    /// decoder's message. A failure is kept and comes out when rendering.
    pub fn load_image(self, outcome: Result<Bitmap, String>) -> (out: Self)
        ensures
            out@.image == match outcome {
                Ok(bitmap) => ImageState::Loaded(bitmap@),
                Err(detail) => ImageState::LoadFailed(detail@),
            },
            out@.palette == self@.palette,
            out@.scale == self@.scale,
    {
        proof {
            use_type_invariant(&self);
        }
        let src_img = match outcome {
            Ok(bitmap) => ImageSlot::Loaded(bitmap),
            Err(detail) => ImageSlot::LoadFailed(detail),
        };
        AsciiPrinter { src_img, chars: self.chars, scale: self.scale }
    }

    /// Replaces the palette by a space followed by the given characters, from
    /// least to most intense. White space among them is taken as it stands.
    pub fn set_chars(self, intense_chars: String) -> (out: Self)
        ensures
            out@.palette == seq![' '] + intense_chars@,
            out@.image == self@.image,
            out@.scale == self@.scale,
    {
        proof {
            use_type_invariant(&self);
        }
        let mut chars: Vec<char> = Vec::new();
        chars.push(' ');
        let text = intense_chars.as_str();
        for c in it: text.chars()
            invariant
                it.seq() == intense_chars@,
                chars@ == seq![' '] + intense_chars@.take(it.index() as int),
        {
            chars.push(c);
        }
        AsciiPrinter { src_img: self.src_img, chars, scale: self.scale }
    }

    /// Replaces the scale.
    pub fn set_scale(self, scale: u32) -> (out: Self)
        requires
            scale >= 1,
        ensures
            out@.scale == scale,
            out@.image == self@.image,
            out@.palette == self@.palette,
    {
        proof {
            use_type_invariant(&self);
        }
        AsciiPrinter { src_img: self.src_img, chars: self.chars, scale }
    }

    /// The palette, from darkest to brightest. It starts with a space.
    pub fn chars(&self) -> (chars: &Vec<char>)
        ensures
            chars@ == self@.palette,
            chars@.len() >= 1,
            chars@[0] == ' ',
    {
        proof {
            use_type_invariant(self);
        }
        &self.chars
    }

    /// The scale, which is at least one.
    pub fn scale(&self) -> (scale: u32)
        ensures
            scale == self@.scale,
            scale >= 1,
    {
        proof {
            use_type_invariant(self);
        }
        self.scale
    }

    /// The character that an intensity is shown as: the palette is cut into
    /// equal buckets from the darkest character to the brightest.
    pub fn get_char(&self, intensity: u32) -> (c: char)
        requires
            intensity < INTENSITY_LIMIT,
        ensures
            char_index(intensity as nat, self@.palette.len()) < self@.palette.len(),
            c == self@.palette[char_index(intensity as nat, self@.palette.len()) as int],
    {
        proof {
            use_type_invariant(self);
            lemma_char_index_in_bounds(intensity as nat, self.chars@.len());
        }
        pick_char(&self.chars, intensity)
    }

    /// Renders the image: the text of its character grid, one line for every
    /// sampled row, followed by an empty line. Without a loaded image, says
    /// why there is none.
    pub fn render(self) -> (out: Result<String, RenderError>)
        ensures
            is_rendering_of(out, self@),
    {
        proof {
            use_type_invariant(&self);
        }
        match self.src_img {
            ImageSlot::Unloaded => Err(RenderError::NoImage),
            ImageSlot::LoadFailed(detail) => Err(RenderError::LoadFailed(detail)),
            ImageSlot::Loaded(bitmap) => Ok(render_bitmap(&bitmap, &self.chars, self.scale)),
        }
    }
}

impl Default for AsciiPrinter {
    /// The configuration to start from: no image, the default palette and
    /// the default scale.
    fn default() -> (out: Self)
        ensures
            out@.image == ImageState::Unloaded,
            out@.palette == default_palette(),
            out@.scale == DEFAULT_SCALE,
    {
        let blank = AsciiPrinter {
            src_img: ImageSlot::Unloaded,
            chars: vec![' '],
            scale: DEFAULT_SCALE,
        };
        proof {
            lemma_default_chars();
        }
        blank.set_chars(strip_whitespace(DEFAULT_CHARS))
    }
}

/// Whether two results of rendering show the same: the same text, or the same
/// failure with the same message.
pub open spec fn same_rendering(first: Result<String, RenderError>, second: Result<String, RenderError>) -> bool {
    match (first, second) {
        (Ok(a), Ok(b)) => a@ == b@,
        (Err(RenderError::NoImage), Err(RenderError::NoImage)) => true,
        (Err(RenderError::LoadFailed(a)), Err(RenderError::LoadFailed(b))) => a@ == b@,
        _ => false,
    }
}

/// Rendering is repeatable: whatever is rendered twice from one image, one
/// palette and one scale comes out the same, character by character.
pub proof fn lemma_rendering_is_repeatable(
    model: PrinterModel,
    first: Result<String, RenderError>,
    second: Result<String, RenderError>,
)
    requires
        is_rendering_of(first, model),
        is_rendering_of(second, model),
    ensures
        same_rendering(first, second),
{
}

} // verus!
