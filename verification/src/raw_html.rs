//! Raw HTML content meant to become a JSX element.

use vstd::prelude::*;
use crate::jsx::{JsxChild, JsxElement, child_view, el_view, copy_element};
use crate::text::{str_trim, trim_ws};

verus! {

/// Raw HTML content.
#[derive(Debug, Clone, Default)]
pub struct RawHtml(pub String);

/// Why raw HTML did not give a JSX element.
#[derive(Debug, Clone, Copy, PartialEq, Eq, Structural)]
pub enum RawHtmlError {
    ParseError,
    NoJsxElement,
    InvalidFragment,
    EmptyContent,
}

impl RawHtml {
    /// The content `html`.
    pub fn new(html: String) -> (r: RawHtml)
        ensures
            r.0@ == html@,
    {
        RawHtml(html)
    }

    /// The content.
    pub fn as_str(&self) -> (r: &str)
        ensures
            r@ == self.0@,
    {
        self.0.as_str()
    }

    /// The content, taken out.
    pub fn into_inner(self) -> (r: String)
        ensures
            r@ == self.0@,
    {
        self.0
    }

    /// Whether the content is nothing but whitespace.
    pub fn is_empty(&self) -> (r: bool)
        ensures
            r == (trim_ws(self.0@).len() == 0),
    {
        str_trim(self.0.as_str()).unicode_len() == 0
    }

    /// The first child of a parsed element, where it is an element:
    /// `NoJsxElement` where the element has no child or its first child is
    /// text.
    pub fn first_child_element(element: &JsxElement) -> (r: Result<JsxElement, RawHtmlError>)
        ensures
            match r {
                Ok(c) => element.children@.len() > 0 && element.children@[0] is Element
                    && el_view(c) == child_view(element.children@[0]),
                Err(e) => e == RawHtmlError::NoJsxElement && (element.children@.len() == 0
                    || element.children@[0] is Text),
            },
    {
        if element.children.len() == 0 {
            return Err(RawHtmlError::NoJsxElement);
        }
        match &element.children[0] {
            JsxChild::Element(c) => Ok(copy_element(c)),
            JsxChild::Text(_) => Err(RawHtmlError::NoJsxElement),
        }
    }

    /// The message of an error.
    pub fn error_message(e: RawHtmlError) -> (r: &'static str)
        ensures
            r@ == match e {
                RawHtmlError::ParseError => "Failed to parse JSX"@,
                RawHtmlError::NoJsxElement => "No JSX element found in parsed content"@,
                RawHtmlError::InvalidFragment => "Invalid JSX fragment structure"@,
                RawHtmlError::EmptyContent => "Empty HTML content provided"@,
            },
    {
        match e {
            RawHtmlError::ParseError => "Failed to parse JSX",
            RawHtmlError::NoJsxElement => "No JSX element found in parsed content",
            RawHtmlError::InvalidFragment => "Invalid JSX fragment structure",
            RawHtmlError::EmptyContent => "Empty HTML content provided",
        }
    }
}

} // verus!
