use ascii_art::{AppError, ErrorKind, InputError, RenderError};

fn error(kind: ErrorKind, detail: &str) -> AppError {
    AppError { kind, detail: detail.to_string() }
}

#[test]
fn message_names_the_category() {
    assert_eq!(error(ErrorKind::Io, "broken pipe").message(), "io error: broken pipe");
    assert_eq!(error(ErrorKind::Image, "bad header").message(), "load-image error: bad header");
    assert_eq!(
        error(ErrorKind::Configuration, "scale must be positive").message(),
        "configuration error: scale must be positive"
    );
    assert_eq!(error(ErrorKind::Unknown, "?").message(), "unknown error: ?");
    assert_eq!(error(ErrorKind::Unknown, "").message(), "unknown error: ");
}

#[test]
fn render_errors_are_image_errors() {
    let none = AppError::from_render(RenderError::NoImage);
    assert_eq!(none.kind, ErrorKind::Image);
    assert_eq!(none.detail, "no image selected");
    let failed = AppError::from_render(RenderError::LoadFailed("Format error decoding Png".to_string()));
    assert_eq!(failed.kind, ErrorKind::Image);
    assert_eq!(failed.detail, "Format error decoding Png");
    assert_eq!(failed.message(), "load-image error: Format error decoding Png");
}

#[test]
fn input_errors_are_io_errors() {
    let none = AppError::from_input(InputError::NoSource);
    assert_eq!(none.kind, ErrorKind::Io);
    assert_eq!(none.detail, "receiving on an empty channel");
    let empty = AppError::from_input(InputError::EmptySource);
    assert_eq!(empty.kind, ErrorKind::Io);
    assert_eq!(empty.detail, "stdin is empty");
}
