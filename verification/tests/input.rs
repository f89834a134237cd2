use ascii_art::text::is_whitespace_char;
use ascii_art::{needs_stdin, resolve_source, strip_whitespace, trim, AppError, ErrorKind, InputError, NO_SOURCE_HINT};

#[test]
fn explicit_path_is_returned_unchanged() {
    let path = Some(" pictures/cat.png ".to_string());
    assert!(!needs_stdin(&path));
    assert_eq!(resolve_source(path, None), Ok(" pictures/cat.png ".to_string()));
    let path = Some("a.png".to_string());
    assert_eq!(resolve_source(path, Some("b.png\n".to_string())), Ok("a.png".to_string()));
}

#[test]
fn empty_explicit_path_falls_back_to_stdin() {
    let path = Some(String::new());
    assert!(needs_stdin(&path));
    assert_eq!(resolve_source(path, Some("b.png\n".to_string())), Ok("b.png".to_string()));
    assert_eq!(resolve_source(Some(String::new()), None), Err(InputError::NoSource));
}

#[test]
fn piped_line_is_trimmed() {
    assert!(needs_stdin(&None));
    let line = Some("  \t pictures/my cat.png \r\n".to_string());
    assert_eq!(resolve_source(None, line), Ok("pictures/my cat.png".to_string()));
}

#[test]
fn nothing_piped_is_no_source() {
    let out = resolve_source(None, None);
    assert_eq!(out, Err(InputError::NoSource));
    let error = out.unwrap_err();
    assert_eq!(error.hint(), Some("No image selected, run with --help for more info"));
    assert_eq!(error.hint(), Some(NO_SOURCE_HINT));
    let error = AppError::from_input(error);
    assert_eq!(error.kind, ErrorKind::Io);
    assert_eq!(error.message(), "io error: receiving on an empty channel");
}

#[test]
fn blank_line_is_an_empty_source() {
    for line in ["", "\n", "   ", " \t\r\n", "\u{a0}\u{2003}\u{3000}"] {
        let out = resolve_source(None, Some(line.to_string()));
        assert_eq!(out, Err(InputError::EmptySource));
    }
    assert_eq!(InputError::EmptySource.hint(), None);
    let error = AppError::from_input(InputError::EmptySource);
    assert_eq!(error.kind, ErrorKind::Io);
    assert_eq!(error.message(), "io error: stdin is empty");
}

#[test]
fn white_space_is_what_the_standard_library_says() {
    for code in 0..=0x10FFFFu32 {
        if let Some(c) = char::from_u32(code) {
            assert_eq!(is_whitespace_char(c), c.is_whitespace(), "U+{:04X}", code);
        }
    }
}

#[test]
fn trim_removes_both_ends_only() {
    for text in ["", " ", "a", " a", "a ", "  a b  ", "\n\ta\u{2028}b c\u{85}\r\n", "é \u{3000}", "\u{200b} x"] {
        assert_eq!(trim(text), text.trim());
    }
}

#[test]
fn strip_removes_every_white_space() {
    assert_eq!(strip_whitespace(""), "");
    assert_eq!(strip_whitespace(" \t\n"), "");
    assert_eq!(strip_whitespace(" a  b\tc\n"), "abc");
    assert_eq!(strip_whitespace("#\u{a0}@\u{2009}$"), "#@$");
    assert_eq!(strip_whitespace("a\u{200b}b"), "a\u{200b}b");
}
