use etch::jsx::{JsxChild, JsxElement};
use etch::raw_html::{RawHtml, RawHtmlError};

fn el(name: &str, children: Vec<JsxChild>) -> JsxElement {
    JsxElement { name: name.to_string(), attrs: vec![], children }
}

#[test]
fn whitespace_content_is_empty() {
    assert!(RawHtml::new("  \n\t ".to_string()).is_empty());
    assert!(RawHtml::default().is_empty());
    let h = RawHtml::new("<div>Hello World</div>".to_string());
    assert!(!h.is_empty());
    assert_eq!(h.as_str(), "<div>Hello World</div>");
    assert_eq!(h.into_inner(), "<div>Hello World</div>");
}

#[test]
fn first_child_must_be_an_element() {
    let outer = el("div", vec![JsxChild::Element(el("span", vec![JsxChild::Text("Nested".to_string())]))]);
    let c = RawHtml::first_child_element(&outer).unwrap();
    assert_eq!(c.name, "span");
    assert!(matches!(RawHtml::first_child_element(&el("div", vec![])), Err(RawHtmlError::NoJsxElement)));
    let text_first = el("div", vec![JsxChild::Text("x".to_string())]);
    assert!(matches!(RawHtml::first_child_element(&text_first), Err(RawHtmlError::NoJsxElement)));
    assert_eq!(RawHtml::error_message(RawHtmlError::EmptyContent), "Empty HTML content provided");
}
