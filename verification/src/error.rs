//! The errors that end a run, and how they are shown.

use crate::input::InputError;
use crate::printer::RenderError;
use vstd::prelude::*;

verus! {

/// The category of an error.
#[derive(Debug, Clone, Copy, PartialEq, Eq, Structural)]
pub enum ErrorKind {
    /// Standard input could not be read, or gave nothing.
    Io,
    /// No image was selected, or it could not be loaded.
    Image,
    /// A setting is not valid.
    Configuration,
    /// Anything else.
    Unknown,
}

/// An error with its category and what went wrong.
#[derive(Debug, PartialEq, Eq)]
pub struct AppError {
    pub kind: ErrorKind,
    pub detail: String,
}

/// The name that a category is shown under.
pub open spec fn category(kind: ErrorKind) -> Seq<char> {
    match kind {
        ErrorKind::Io => "io"@,
        ErrorKind::Image => "load-image"@,
        ErrorKind::Configuration => "configuration"@,
        ErrorKind::Unknown => "unknown"@,
    }
}

/// What is said of an input error.
pub open spec fn input_detail(error: InputError) -> Seq<char> {
    match error {
        InputError::NoSource => "receiving on an empty channel"@,
        InputError::EmptySource => "stdin is empty"@,
    }
}

/// What is said of a render error: for a failed load, the decoder's
/// message.
pub open spec fn render_detail(error: RenderError) -> Seq<char> {
    match error {
        RenderError::NoImage => "no image selected"@,
        RenderError::LoadFailed(detail) => detail@,
    }
}

impl AppError {
    /// The line that the error is shown as: its category, the word `error`,
    /// a colon and the detail.
    pub open spec fn message_text(&self) -> Seq<char> {
        category(self.kind) + " error: "@ + self.detail@
    }

    /// Formats the error for the user.
    pub fn message(&self) -> (text: String)
        ensures
            text@ == self.message_text(),
    {
        let name = match self.kind {
            ErrorKind::Io => "io",
            ErrorKind::Image => "load-image",
            ErrorKind::Configuration => "configuration",
            ErrorKind::Unknown => "unknown",
        };
        let mut text = String::from_str(name);
        text.append(" error: ");
        text.append(self.detail.as_str());
        text
    }

    /// An input error is an error of category `Io`.
    pub fn from_input(error: InputError) -> (out: AppError)
        ensures
            out.kind == ErrorKind::Io,
            out.detail@ == input_detail(error),
    {
        let detail = match error {
            InputError::NoSource => "receiving on an empty channel",
            InputError::EmptySource => "stdin is empty",
        };
        AppError { kind: ErrorKind::Io, detail: String::from_str(detail) }
    }

    /// A render error is an error of category `Image`.
    pub fn from_render(error: RenderError) -> (out: AppError)
        ensures
            out.kind == ErrorKind::Image,
            out.detail@ == render_detail(error),
    {
        let detail = match error {
            RenderError::NoImage => String::from_str("no image selected"),
            RenderError::LoadFailed(detail) => detail,
        };
        AppError { kind: ErrorKind::Image, detail }
    }
}

} // verus!
