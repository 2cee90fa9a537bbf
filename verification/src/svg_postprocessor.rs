//! Post-processing of SVG markup exported by Figma.
//!
//! The steps keep the markup as it is for now; their results are stated as
//! such.

use vstd::prelude::*;
use crate::text::owned;

verus! {

/// A text element that needs superscript or subscript formatting.
#[derive(Debug, Clone)]
pub struct TextFix {
    pub element_id: String,
    pub is_superscript: bool,
    pub is_subscript: bool,
}

/// An error of post-processing.
#[derive(Debug, Clone)]
pub struct PostprocessError {
    pub message: String,
}

/// Post-processes SVG markup exported by Figma.
#[derive(Debug)]
pub struct SvgPostprocessor {
    /// The text elements found to need formatting.
    pub text_fixes: Vec<TextFix>,
}

impl SvgPostprocessor {
    /// A post-processor that has found nothing yet.
    pub fn new() -> (r: SvgPostprocessor)
        ensures
            r.text_fixes@.len() == 0,
    {
        SvgPostprocessor { text_fixes: Vec::new() }
    }

    /// Processes SVG markup; the markup comes back unchanged.
    pub fn process_svg_content(svg_content: &str) -> (r: Result<String, PostprocessError>)
        ensures
            r is Ok,
            r.unwrap()@ == svg_content@,
    {
        Ok(owned(svg_content))
    }

    /// Fixes superscripts in SVG text elements; the markup comes back
    /// unchanged.
    pub fn fix_superscripts(svg_content: &str) -> (r: String)
        ensures
            r@ == svg_content@,
    {
        owned(svg_content)
    }

    /// Processes SVG markup and reports the text fixes found: the markup
    /// comes back unchanged, with no fixes.
    pub fn process_with_swc_visitor(svg_content: &str) -> (r: Result<(String, Vec<TextFix>), PostprocessError>)
        ensures
            r is Ok,
            r.unwrap().0@ == svg_content@,
            r.unwrap().1@.len() == 0,
    {
        Ok((owned(svg_content), Vec::new()))
    }

    /// Simplifies the paths of SVG markup; the markup comes back unchanged.
    pub fn optimize_paths(svg_content: &str) -> (r: String)
        ensures
            r@ == svg_content@,
    {
        owned(svg_content)
    }

    /// Applies every post-processing step: superscripts, then paths.
    pub fn postprocess(svg_content: &str) -> (r: String)
        ensures
            r@ == svg_content@,
    {
        let processed = Self::fix_superscripts(svg_content);
        Self::optimize_paths(processed.as_str())
    }
}

} // verus!
