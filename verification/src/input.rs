//! Where the path of the image comes from.
//!
//! A path given on the command line is used as it is. Without one, a single
//! line is awaited on standard input for a short while; the caller does the
//! waiting and hands over what arrived.

use crate::text::{trim, trimmed};
use vstd::prelude::*;

verus! {

/// What the user is told when no path was given and none arrived.
pub const NO_SOURCE_HINT: &'static str = "No image selected, run with --help for more info";

/// Why no path could be determined.
#[derive(Debug, Clone, Copy, PartialEq, Eq, Structural)]
pub enum InputError {
    /// No path was given, and nothing arrived on standard input in time.
    NoSource,
    /// The line from standard input held nothing but white space.
    EmptySource,
}

/// Whether a path given on the command line can be used: it is present and
/// not empty.
pub open spec fn is_usable(explicit_path: Option<String>) -> bool {
    explicit_path matches Some(path) && path@.len() > 0
}

/// The path that the two sources resolve to, or the reason why there is none.
/// A usable explicit path wins; else the line from standard input is taken
/// without the white space around it.
pub open spec fn is_source_of(
    out: Result<String, InputError>,
    explicit_path: Option<String>,
    stdin_line: Option<String>,
) -> bool {
    if is_usable(explicit_path) {
        out == Ok::<String, InputError>(explicit_path->0)
    } else {
        match stdin_line {
            None => out == Err::<String, InputError>(InputError::NoSource),
            Some(line) => if trimmed(line@).len() == 0 {
                out == Err::<String, InputError>(InputError::EmptySource)
            } else {
                out matches Ok(path) && path@ == trimmed(line@)
            },
        }
    }
}

/// Tells whether standard input has to be consulted: it has when no usable
/// path was given.
pub fn needs_stdin(explicit_path: &Option<String>) -> (needed: bool)
    ensures
        needed == !is_usable(*explicit_path),
{
    match explicit_path {
        Some(path) => path.as_str().is_empty(),
        None => true,
    }
}

/// Determines the path of the image from the path given on the command line,
/// if any, and the line that arrived on standard input, if any did.
pub fn resolve_source(explicit_path: Option<String>, stdin_line: Option<String>) -> (out: Result<
    String,
    InputError,
>)
    ensures
        is_source_of(out, explicit_path, stdin_line),
{
    if !needs_stdin(&explicit_path) {
        return Ok(explicit_path.unwrap());
    }
    match stdin_line {
        None => Err(InputError::NoSource),
        Some(line) => {
            let path = trim(line.as_str());
            if path.as_str().is_empty() {
                Err(InputError::EmptySource)
            } else {
                Ok(path)
            }
        },
    }
}

impl InputError {
    /// The hint to show to the user with this error, if there is one: only a
    /// missing source has one.
    pub fn hint(&self) -> (hint: Option<&'static str>)
        ensures
            hint == match *self {
                InputError::NoSource => Some(NO_SOURCE_HINT),
                InputError::EmptySource => None,
            },
    {
        match self {
            InputError::NoSource => Some(NO_SOURCE_HINT),
            InputError::EmptySource => None,
        }
    }
}

} // verus!
