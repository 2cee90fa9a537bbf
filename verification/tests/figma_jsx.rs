use etch::decimal::Decimal;
use etch::figma::{Vector, VectorNode};
use etch::figma_jsx::{create_inline_vector_jsx_element, create_svg_placeholder_jsx};
use etch::jsx::{JsxChild, JsxElement, JsxValue};

fn dec(digits: u64, exponent: i32) -> Decimal {
    Decimal { negative: false, digits, exponent }
}

fn attrs(e: &JsxElement) -> Vec<(String, String)> {
    e.attrs
        .iter()
        .map(|a| match &a.value {
            Some(JsxValue::Str(v)) => (a.name.clone(), v.clone()),
            _ => panic!("expected a string"),
        })
        .collect()
}

fn pair(a: &str, b: &str) -> (String, String) {
    (a.to_string(), b.to_string())
}

fn vector(geometry: Option<Vec<String>>, has_fills: bool) -> VectorNode {
    VectorNode {
        id: "1:2".to_string(),
        name: "Icon".to_string(),
        size: Some(Vector { x: dec(24, 0), y: dec(125, -1) }),
        fill_geometry: geometry,
        has_fills,
    }
}

#[test]
fn inline_vector_embeds_its_paths() {
    let v = vector(Some(vec!["M0 0L1 1".to_string(), "M2 2".to_string()]), true);
    let e = create_inline_vector_jsx_element(&v);
    assert_eq!(e.name, "svg");
    assert_eq!(
        attrs(&e),
        vec![
            pair("className", "inline-block"),
            pair("data-name", "Icon"),
            pair("data-vector", "true"),
            pair("width", "24"),
            pair("height", "12.5"),
            pair("viewBox", "0 0 24 12.5"),
        ]
    );
    assert_eq!(e.children.len(), 2);
    match &e.children[1] {
        JsxChild::Element(p) => assert_eq!(attrs(p), vec![pair("d", "M2 2"), pair("fill", "#000000")]),
        _ => panic!("expected a path"),
    }
}

#[test]
fn inline_vector_without_geometry_gets_a_placeholder_path() {
    let v = vector(None, false);
    let e = create_inline_vector_jsx_element(&v);
    assert_eq!(e.children.len(), 1);
    match &e.children[0] {
        JsxChild::Element(p) => assert_eq!(attrs(p), vec![pair("d", "M0,0"), pair("fill", "currentColor")]),
        _ => panic!("expected a path"),
    }
    let unfilled = create_inline_vector_jsx_element(&vector(Some(vec!["M1 1".to_string()]), false));
    match &unfilled.children[0] {
        JsxChild::Element(p) => assert_eq!(attrs(p), vec![pair("d", "M1 1")]),
        _ => panic!("expected a path"),
    }
}

#[test]
fn placeholder_marks_pending_svg() {
    let e = create_svg_placeholder_jsx(&vector(None, true));
    assert_eq!(
        attrs(&e),
        vec![pair("data-name", "Icon"), pair("data-vector", "true"), pair("data-pending", "true"), pair("width", "24"), pair("height", "12.5")]
    );
    assert!(matches!(&e.children[0], JsxChild::Text(t) if t == "<!-- Loading SVG for vector: Icon -->"));
}

use etch::figma::{TextNode, TypeStyle};
use etch::figma_export::FigmaSvgExporter;
use etch::figma_jsx::{create_vector_jsx_placeholder, create_vector_jsx_with_svg_export, parse_svg_content_to_jsx, RenderContext, TextNodeExt, ToJsx};
use etch::strategy::SvgConfig;

fn format_view_box(text: &String) -> Option<String> {
    let n: Vec<f64> = text.split_whitespace().filter_map(|s| s.parse().ok()).collect();
    if n.len() == 4 {
        Some(format!("{} {} {} {}", n[0], n[1], n[2], n[3]))
    } else {
        None
    }
}

#[test]
fn exported_vector_has_its_view_box_and_content() {
    let config = SvgConfig { use_external_paths: true, external_path_base: "assets/svg".to_string(), optimize: true, include_viewbox: true };
    let mut exporter = FigmaSvgExporter::new(config);
    let v = vector(None, true);
    let e = create_vector_jsx_with_svg_export(&v, &mut exporter, "file", &format_view_box).unwrap();
    assert_eq!(e.name, "svg");
    assert_eq!(attrs(&e), vec![pair("data-name", "Icon"), pair("data-vector", "true"), pair("viewBox", "0 0 100 100")]);
    assert!(matches!(&e.children[0], JsxChild::Text(t) if t == "<!-- SVG content would be parsed here -->"));
}

#[test]
fn vector_placeholder_and_text_paragraph() {
    let v = vector(None, true);
    let p = create_vector_jsx_placeholder(&v);
    assert_eq!(attrs(&p), vec![pair("data-name", "Icon"), pair("data-vector", "true")]);
    assert!(p.children.is_empty());
    assert_eq!(ToJsx::to_jsx(&v).name, "svg");
    assert_eq!(parse_svg_content_to_jsx("<svg/>").len(), 1);
    let t = TextNode {
        id: "3:4".to_string(),
        name: "Title".to_string(),
        characters: "Hello".to_string(),
        size: None,
        style: TypeStyle {
            text_align_horizontal: None,
            letter_spacing: None,
            font_weight: None,
            font_size: None,
            text_decoration: None,
            italic: None,
            fill_color: None,
            line_height: None,
            font_family: None,
        },
    };
    let e = TextNodeExt::to_jsx(&t);
    assert_eq!(e.name, "p");
    assert_eq!(attrs(&e), vec![pair("data-name", "Title"), pair("data-text", "true")]);
    assert!(matches!(&e.children[0], JsxChild::Text(s) if s == "Hello"));
}

#[test]
fn render_contexts() {
    let html = RenderContext::default();
    assert!(html.is_html() && !html.is_svg());
    let svg = RenderContext::Svg { parent_x: dec(10, 0), parent_y: dec(5, -1) };
    assert!(svg.is_svg() && !svg.is_html());
    assert_eq!(vector(None, false).to_jsx_with_context(svg).name, "svg");
}
