use ascii_art::{render_bitmap, AppError, AsciiPrinter, Bitmap, ErrorKind, RenderError};
use image::{DynamicImage, GrayImage, ImageBuffer, Luma, Rgb, RgbImage};

fn uniform(width: u32, height: u32, rgb: [u8; 3]) -> DynamicImage {
    DynamicImage::ImageRgb8(RgbImage::from_pixel(width, height, Rgb(rgb)))
}

fn load(img: DynamicImage) -> AsciiPrinter {
    AsciiPrinter::default().load_image(Ok(Bitmap::from_image(&img)))
}

fn render(img: DynamicImage, chars: Option<&str>, scale: u32) -> String {
    let mut printer = load(img);
    if let Some(chars) = chars {
        printer = printer.set_chars(chars.to_string());
    }
    printer.set_scale(scale).render().unwrap()
}

#[test]
fn black_pixel_is_a_space() {
    let printer = load(uniform(1, 1, [0, 0, 0]));
    assert_eq!(printer.render().unwrap(), " \n\n");
}

#[test]
fn white_pixel_is_the_last_character() {
    let printer = load(uniform(1, 1, [255, 255, 255]));
    assert_eq!(printer.render().unwrap(), "$\n\n");
}

#[test]
fn scale_two_on_ten_by_ten() {
    let text = render(uniform(10, 10, [255, 255, 255]), None, 2);
    assert_eq!(text, "$$$$$\n$$$$$\n$$$$$\n\n");
    let lines: Vec<&str> = text.split('\n').collect();
    assert_eq!(lines.len(), 5);
    assert!(lines[..3].iter().all(|line| line.chars().count() == 5));
    assert_eq!(lines[3], "");
    assert_eq!(lines[4], "");
}

#[test]
fn default_scale_samples_every_third_column_and_sixth_row() {
    let text = render(uniform(7, 13, [0, 0, 0]), None, 3);
    assert_eq!(text, "   \n   \n   \n\n");
}

#[test]
fn sampled_pixels_keep_their_place() {
    let mut buffer = RgbImage::from_pixel(4, 3, Rgb([0, 0, 0]));
    buffer.put_pixel(1, 0, Rgb([255, 255, 255]));
    buffer.put_pixel(3, 0, Rgb([128, 128, 128]));
    buffer.put_pixel(0, 2, Rgb([255, 255, 255]));
    buffer.put_pixel(2, 2, Rgb([255, 0, 0]));
    let text = render(DynamicImage::ImageRgb8(buffer), None, 1);
    assert_eq!(text, " $ ~\n$ , \n\n");
}

#[test]
fn skipped_pixels_leave_no_gap() {
    let mut buffer = RgbImage::from_pixel(5, 5, Rgb([0, 0, 0]));
    buffer.put_pixel(2, 0, Rgb([255, 255, 255]));
    buffer.put_pixel(4, 4, Rgb([255, 255, 255]));
    buffer.put_pixel(1, 0, Rgb([255, 255, 255]));
    buffer.put_pixel(0, 1, Rgb([255, 255, 255]));
    let text = render(DynamicImage::ImageRgb8(buffer), Some("#"), 2);
    assert_eq!(text, " # \n  #\n\n");
}

#[test]
fn image_without_columns_gives_empty_lines() {
    let text = render(DynamicImage::ImageRgb8(RgbImage::new(0, 7)), None, 1);
    assert_eq!(text, "\n\n\n\n\n");
}

#[test]
fn image_without_rows_gives_the_closing_line_only() {
    let text = render(DynamicImage::ImageRgb8(RgbImage::new(5, 0)), None, 1);
    assert_eq!(text, "\n");
}

#[test]
fn narrow_image_still_gives_its_first_column() {
    let text = render(uniform(2, 1, [255, 255, 255]), None, 5);
    assert_eq!(text, "$\n\n");
}

#[test]
fn largest_scale_samples_the_first_pixel_only() {
    let text = render(uniform(3, 3, [255, 255, 255]), None, u32::MAX);
    assert_eq!(text, "$\n\n");
}

#[test]
fn gray_image_is_read_as_equal_channels() {
    let img = DynamicImage::ImageLuma8(GrayImage::from_pixel(1, 1, Luma([128])));
    assert_eq!(render(img, None, 1), "~\n\n");
}

#[test]
fn deep_image_is_read_in_eight_bits() {
    let img = DynamicImage::ImageRgb16(ImageBuffer::from_pixel(1, 1, Rgb([65535u16, 65535, 65535])));
    assert_eq!(render(img, None, 1), "$\n\n");
}

#[test]
fn custom_chars_cut_the_range_in_three() {
    assert_eq!(render(uniform(1, 1, [84, 84, 84]), Some("AB"), 1), " \n\n");
    assert_eq!(render(uniform(1, 1, [86, 86, 86]), Some("AB"), 1), "A\n\n");
    assert_eq!(render(uniform(1, 1, [169, 169, 169]), Some("AB"), 1), "A\n\n");
    assert_eq!(render(uniform(1, 1, [171, 171, 171]), Some("AB"), 1), "B\n\n");
    assert_eq!(render(uniform(1, 1, [255, 255, 255]), Some("AB"), 1), "B\n\n");
}

#[test]
fn rendering_twice_gives_the_same_text() {
    let mut buffer = RgbImage::new(23, 17);
    for (x, y, pixel) in buffer.enumerate_pixels_mut() {
        *pixel = Rgb([(x * 11) as u8, (y * 15) as u8, ((x + y) * 6) as u8]);
    }
    let first = render(DynamicImage::ImageRgb8(buffer.clone()), Some(".:-=+*#%@"), 2);
    let second = render(DynamicImage::ImageRgb8(buffer), Some(".:-=+*#%@"), 2);
    assert_eq!(first, second);
    assert_eq!(first.lines().count(), 6);
    assert!(first.lines().take(5).all(|line| line.chars().count() == 12));
}

#[test]
fn rendering_without_an_image_fails() {
    let out = AsciiPrinter::default().set_scale(2).render();
    assert!(matches!(out, Err(RenderError::NoImage)));
    let error = AppError::from_render(out.unwrap_err());
    assert_eq!(error.kind, ErrorKind::Image);
    assert_eq!(error.message(), "load-image error: no image selected");
}

#[test]
fn failed_load_comes_out_when_rendering() {
    let outcome = Err("the file is not an image".to_string());
    let printer = AsciiPrinter::default().load_image(outcome).set_chars("AB".to_string());
    assert_eq!(printer.chars(), &vec![' ', 'A', 'B']);
    match printer.render() {
        Err(RenderError::LoadFailed(detail)) => assert_eq!(detail, "the file is not an image"),
        _ => panic!("a failed load must fail the rendering"),
    }
}

#[test]
fn missing_file_gives_an_image_error() {
    let outcome = image::open("no/such/directory/no-such-image.png");
    let reason = outcome.as_ref().unwrap_err().to_string();
    let outcome = outcome.map(|img| Bitmap::from_image(&img)).map_err(|e| e.to_string());
    let printer = AsciiPrinter::default().load_image(outcome);
    let error = AppError::from_render(printer.render().unwrap_err());
    assert_eq!(error.kind, ErrorKind::Image);
    assert!(!reason.is_empty());
    assert_eq!(error.detail, reason);
    assert_eq!(error.message(), format!("load-image error: {}", reason));
}

#[test]
fn later_image_replaces_the_earlier_one() {
    let printer = AsciiPrinter::default()
        .load_image(Err("first attempt".to_string()))
        .load_image(Ok(Bitmap::from_image(&uniform(1, 1, [255, 255, 255]))));
    assert_eq!(printer.render().unwrap(), "$\n\n");
}

#[test]
fn plain_rows_render_like_a_decoded_image() {
    let black = (0, 0, 0);
    let white = (255, 255, 255);
    let rows = vec![
        vec![black, white, black, (128, 128, 128)],
        vec![white, white, white, white],
        vec![white, black, (255, 0, 0), black],
    ];
    let bitmap = Bitmap::from_rows(rows).unwrap();
    let palette = AsciiPrinter::default().chars().clone();
    assert_eq!(render_bitmap(&bitmap, &palette, 1), " $ ~\n$ , \n\n");
    assert_eq!(render_bitmap(&bitmap, &palette, 2), "  \n\n");
    assert_eq!(render_bitmap(&bitmap, &palette, 3), " ~\n\n");
    let printer = AsciiPrinter::default().load_image(Ok(bitmap)).set_scale(1);
    assert_eq!(printer.render().unwrap(), " $ ~\n$ , \n\n");
}

#[test]
fn one_character_palette_draws_spaces_only() {
    let bitmap = Bitmap::from_rows(vec![vec![(0, 0, 0), (255, 255, 255)]]).unwrap();
    assert_eq!(render_bitmap(&bitmap, &vec![' '], 1), "  \n\n");
}

#[test]
fn bitmap_copies_the_decoded_pixels() {
    let mut buffer = RgbImage::new(3, 2);
    for (x, y, pixel) in buffer.enumerate_pixels_mut() {
        *pixel = Rgb([x as u8, y as u8, (10 * x + y) as u8]);
    }
    let bitmap = Bitmap::from_image(&DynamicImage::ImageRgb8(buffer));
    assert_eq!(bitmap.width(), 3);
    assert_eq!(bitmap.height(), 2);
    for y in 0..2usize {
        for x in 0..3usize {
            assert_eq!(bitmap.pixel(x, y), (x as u8, y as u8, (10 * x + y) as u8));
        }
    }
    let rows = vec![
        vec![(0, 0, 0), (1, 0, 10), (2, 0, 20)],
        vec![(0, 1, 1), (1, 1, 11), (2, 1, 21)],
    ];
    assert_eq!(Some(bitmap), Bitmap::from_rows(rows));
}

#[test]
fn bitmap_keeps_the_width_of_an_image_without_rows() {
    let bitmap = Bitmap::from_image(&DynamicImage::ImageRgb8(RgbImage::new(5, 0)));
    assert_eq!(bitmap.width(), 5);
    assert_eq!(bitmap.height(), 0);
    let bitmap = Bitmap::from_image(&DynamicImage::ImageRgb8(RgbImage::new(0, 5)));
    assert_eq!(bitmap.width(), 0);
    assert_eq!(bitmap.height(), 5);
}

#[test]
fn bitmap_needs_rows_of_one_length() {
    let pixel = (1, 2, 3);
    assert!(Bitmap::from_rows(vec![vec![pixel, pixel], vec![pixel]]).is_none());
    assert!(Bitmap::from_rows(vec![vec![], vec![pixel]]).is_none());
    assert!(Bitmap::from_rows(vec![vec![pixel], vec![pixel], vec![]]).is_none());
    let empty = Bitmap::from_rows(Vec::new()).unwrap();
    assert_eq!((empty.width(), empty.height()), (0, 0));
    let flat = Bitmap::from_rows(vec![Vec::new(), Vec::new()]).unwrap();
    assert_eq!((flat.width(), flat.height()), (0, 2));
    let square = Bitmap::from_rows(vec![vec![pixel, pixel], vec![pixel, pixel]]).unwrap();
    assert_eq!((square.width(), square.height()), (2, 2));
    assert_eq!(square.pixel(1, 1), pixel);
}
