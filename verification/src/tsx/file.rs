//! Errors of loading a TSX file.

use vstd::prelude::*;
use crate::text::cat2;

verus! {

/// An error of loading a TSX file: a parse error, or the message of an I/O
/// error.
#[derive(Debug, Clone)]
pub enum TsxError {
    ParseError(String),
    IoError(String),
}

/// The message of a [`TsxError`].
pub open spec fn file_error_message(e: TsxError) -> Seq<char> {
    match e {
        TsxError::ParseError(s) => "Parse error: "@ + s@,
        TsxError::IoError(s) => "IO error: "@ + s@,
    }
}

impl TsxError {
    /// The message of the error.
    pub fn to_string(&self) -> (r: String)
        ensures
            r@ == file_error_message(*self),
    {
        match self {
            TsxError::ParseError(s) => cat2("Parse error: ", s.as_str()),
            TsxError::IoError(s) => cat2("IO error: ", s.as_str()),
        }
    }
}

} // verus!
