//! Errors of the TSX tools.

use vstd::prelude::*;
use crate::text::cat2;

verus! {

/// An error of parsing or reading a TSX module. The I/O and UTF-8 errors
/// carry the message of the underlying error.
#[derive(Debug, Clone)]
pub enum TsxError {
    ParseError(String),
    IoError(String),
    FromUtf8Error(String),
}

/// The message of a [`TsxError`].
pub open spec fn tsx_error_message(e: TsxError) -> Seq<char> {
    match e {
        TsxError::ParseError(s) => "Parse error: "@ + s@,
        TsxError::IoError(s) => "IO error: "@ + s@,
        TsxError::FromUtf8Error(s) => "FromUtf8Error: "@ + s@,
    }
}

impl TsxError {
    /// The message of the error.
    pub fn to_string(&self) -> (r: String)
        ensures
            r@ == tsx_error_message(*self),
    {
        match self {
            TsxError::ParseError(s) => cat2("Parse error: ", s.as_str()),
            TsxError::IoError(s) => cat2("IO error: ", s.as_str()),
            TsxError::FromUtf8Error(s) => cat2("FromUtf8Error: ", s.as_str()),
        }
    }
}

} // verus!
