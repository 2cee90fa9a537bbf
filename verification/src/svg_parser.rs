//! Parsing SVG markup into JSX: its errors and the cleaning of the markup.

use vstd::prelude::*;
use crate::svgr::cleaned_svg;
use crate::text::{cat2, owned};

verus! {

/// An error of parsing SVG into JSX.
#[derive(Debug, Clone)]
pub enum SvgParseError {
    ParseError(String),
    NoJsxElement,
    EmptyContent,
    InvalidXml,
}

impl SvgParseError {
    /// The message of the error.
    pub fn to_string(&self) -> (r: String)
        ensures
            r@ == match self {
                SvgParseError::ParseError(s) => "Failed to parse SVG: "@ + s@,
                SvgParseError::NoJsxElement => "No JSX element found in parsed SVG content"@,
                SvgParseError::EmptyContent => "Empty SVG content provided"@,
                SvgParseError::InvalidXml => "SVG content is not valid XML"@,
            },
    {
        match self {
            SvgParseError::ParseError(s) => cat2("Failed to parse SVG: ", s.as_str()),
            SvgParseError::NoJsxElement => owned("No JSX element found in parsed SVG content"),
            SvgParseError::EmptyContent => owned("Empty SVG content provided"),
            SvgParseError::InvalidXml => owned("SVG content is not valid XML"),
        }
    }
}

/// Parses SVG markup into JSX.
#[derive(Debug, Clone, Copy)]
pub struct SvgParser;

impl SvgParser {
    /// SVG markup without a leading XML declaration and DOCTYPE.
    pub fn clean_svg_content(svg_content: &str) -> (r: String)
        ensures
            r@ == cleaned_svg(svg_content@),
    {
        crate::svgr::clean_svg_content(svg_content)
    }
}

} // verus!
