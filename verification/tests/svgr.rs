use etch::md::{HeadingAttrs, MdHeadingLevel, MarkdownTransformer, MdEvent, TailwindTransformer};
use etch::svg_parser::SvgParser;
use etch::svgr::{
    clean_svg_content, convert_aria_attribute, decode_xml, get_key, get_value, kebab_case, replace_spaces, text,
    JsxAttrValue, SvgrError,
};

#[test]
fn test_clean_svg_content() {
    let svg_with_xml_decl = r#"<?xml version="1.0" encoding="UTF-8"?>
            <svg viewBox="0 0 100 100">
                <circle cx="50" cy="50" r="40"/>
            </svg>
        "#;

    let cleaned = SvgParser::clean_svg_content(svg_with_xml_decl);
    assert!(!cleaned.contains("<?xml"));
    assert!(cleaned.contains("<svg"));
}

#[test]
fn doctype_is_removed_too() {
    let s = "  <?xml version=\"1.0\"?>\n<!DOCTYPE svg>\n  <svg/>";
    assert_eq!(clean_svg_content(s), "<svg/>");
    assert_eq!(clean_svg_content("<svg/>"), "<svg/>");
}

#[test]
fn attribute_names() {
    assert_eq!(kebab_case("strokeWidth"), "stroke-width");
    assert_eq!(kebab_case("ÀB"), "-à-b");
    assert_eq!(convert_aria_attribute("aria-Label-Big"), "aria-labelbig");
    assert_eq!(get_key("class", "svg"), "className");
    assert_eq!(get_key("checked", "input"), "defaultChecked");
    assert_eq!(get_key("maxlength", "input"), "maxLength");
    assert_eq!(get_key("ENCTYPE", "form"), "encType");
    assert_eq!(get_key("aria-Hidden", "svg"), "aria-hidden");
    assert_eq!(get_key("ariaHidden", "svg"), "ariaHidden-");
    assert_eq!(get_key("data-x", "svg"), "data-x");
    assert_eq!(get_key("stroke-width", "path"), "stroke-width");
}

#[test]
fn attribute_values_and_text() {
    assert!(matches!(get_value("style", "a:b", false), JsxAttrValue::Str(s) if s == "a:b"));
    assert!(matches!(get_value("width", "10", true), JsxAttrValue::Number(s) if s == "10"));
    assert!(matches!(get_value("d", "M0\n\t0", false), JsxAttrValue::Str(s) if s == "M0 0"));
    assert_eq!(replace_spaces("a\r\n\r\nb\u{2028}c"), "a b c");
    assert_eq!(decode_xml("&lt;b&gt; &amp;amp; &quot;&apos;"), "<b> &amp; \"'");
    assert_eq!(text("  \n "), None);
    assert_eq!(text(""), Some(String::new()));
    assert_eq!(text(" a&amp;b "), Some(" a&b ".to_string()));
    assert_eq!(SvgrError::EmptyContent.to_string(), "Empty SVG content provided");
}

fn no_attrs() -> HeadingAttrs {
    HeadingAttrs { id: None, classes: vec![], attrs: vec![] }
}

#[test]
fn markdown_gets_tailwind_classes() {
    let mut t = TailwindTransformer;
    let h: MdEvent = t.transform_event(MdEvent::StartHeading(MdHeadingLevel::H2, no_attrs()));
    assert!(matches!(h, MdEvent::Html(s) if s == "<h2 class=\"text-3xl font-semibold mb-4\">"));
    let h: MdEvent = t.transform_event(MdEvent::StartHeading(MdHeadingLevel::H5, no_attrs()));
    assert!(matches!(h, MdEvent::Html(s) if s == "<h5 class=\"text-xl font-medium mb-2\">"));
    let e: MdEvent = t.transform_event(MdEvent::EndHeading(MdHeadingLevel::H1));
    assert!(matches!(e, MdEvent::Html(s) if s == "</h1>"));
    let p: MdEvent = t.transform_event(MdEvent::StartParagraph);
    assert!(matches!(p, MdEvent::Html(s) if s == "<p class=\"text-gray-700 leading-relaxed mb-4\">"));
    let o: MdEvent = t.transform_event(MdEvent::TaskListMarker(true));
    assert!(matches!(o, MdEvent::TaskListMarker(true)));
}
