use etch::html::{sanitize_text, HtmlNode, RichTextTransformVisitor, TextCollectorVisitor};
use etch::html_assets::{is_asset_extension, is_skipped_dir, AssetVisitor};
use etch::html_links::LinkVisitor;
use etch::svg_extract::{SvgExtractVisitor, SvgImportType};

fn attrs(pairs: &[(&str, &str)]) -> Vec<(String, String)> {
    pairs.iter().map(|(k, v)| (k.to_string(), v.to_string())).collect()
}

fn attr_pairs(n: &HtmlNode) -> Vec<(String, String)> {
    match n {
        HtmlNode::Element { attrs, .. } => attrs.clone(),
        HtmlNode::Text(_) => vec![],
    }
}

#[test]
fn links_are_collected_with_their_text() {
    let mut v = LinkVisitor::new();
    let children = vec![Some("Rust".to_string()), None, Some(" lang".to_string())];
    assert!(v.visit_element("a", &attrs(&[("class", "x"), ("href", "https://www.rust-lang.org")]), &children));
    assert!(v.visit_element("a", &attrs(&[("name", "top")]), &children));
    assert!(v.visit_element("div", &attrs(&[("href", "nope")]), &children));
    let links = v.links();
    assert_eq!(links.len(), 1);
    assert_eq!(links[0].1.url, "https://www.rust-lang.org");
    assert_eq!(links[0].1.text, "Rust lang");
    assert_eq!(links[0].0.len(), 36);
}

#[test]
fn svg_elements_are_extracted() {
    let mut v = SvgExtractVisitor::new(SvgImportType::Object, Some("assets".to_string()));
    let (node, go_on) = v.visit_element("svg", &attrs(&[("width", "10"), ("height", "20")]), "<path d=\"M0 0\"/>");
    assert!(go_on);
    let (id, markup) = &v.svgs()[0];
    assert_eq!(markup, "<svg width=\"10\" height=\"20\"><path d=\"M0 0\"/></svg>");
    let node = node.unwrap();
    assert_eq!(
        attr_pairs(&node),
        attrs(&[("data", &format!("assets/{}.svg", id)), ("type", "image/svg+xml"), ("id", id)])
    );
    let (none, go_on) = v.visit_element("div", &attrs(&[]), "");
    assert!(none.is_none() && go_on);
    assert_eq!(v.svgs().len(), 1);

    let mut img = SvgExtractVisitor::new(SvgImportType::Img, None);
    let (node, _) = img.visit_element("svg", &attrs(&[]), "");
    let id = img.svgs()[0].0.clone();
    assert_eq!(attr_pairs(&node.unwrap()), attrs(&[("src", &format!("{}.svg", id)), ("id", &id)]));
}

#[test]
fn import_types_by_name() {
    assert_eq!(SvgImportType::Embed.as_str(), "embed");
    assert_eq!(SvgImportType::parse("img"), Some(SvgImportType::Img));
    assert_eq!(SvgImportType::parse("Object"), None);
}

#[test]
fn text_is_sanitized() {
    assert_eq!(sanitize_text("  Hello,\n\n   world!  \n"), "Hello, world!");
    assert_eq!(sanitize_text("a\u{00A0}b  c"), "a b c");
}

#[test]
fn rich_text_wraps_text_and_paragraphs() {
    let mut v = RichTextTransformVisitor::new();
    let (none, go_on) = v.visit_text("   \n  ");
    assert!(none.is_none() && go_on);
    let (node, go_on) = v.visit_text("  Hello\n  world ");
    assert!(!go_on);
    assert_eq!(v.rich_text_mappings()[0].1, "Hello world");
    match node.unwrap() {
        HtmlNode::Element { name, children, .. } => {
            assert_eq!(name, "rich-text");
            assert!(matches!(&children[0], HtmlNode::Text(t) if t == "Hello world"));
        }
        _ => panic!("expected an element"),
    }
    let render = |n: &HtmlNode| match n {
        HtmlNode::Element { name, .. } => format!("<{}>", name),
        HtmlNode::Text(t) => t.clone(),
    };
    let (p, go_on) = v.visit_element("p", attrs(&[("class", "lead")]), vec![HtmlNode::Text(" x ".to_string())], render);
    assert!(!go_on);
    assert_eq!(v.rich_text_mappings()[1].1, "<rich-text>");
    assert_eq!(attr_pairs(&p.unwrap()), attrs(&[("class", "lead")]));
    let (_, go_on) = v.visit_element("ul", vec![], vec![], render);
    assert!(go_on);
    let (li, go_on) = v.visit_element("li", vec![], vec![HtmlNode::Text(" y\n z ".to_string())], render);
    assert!(!go_on);
    match li.unwrap() {
        HtmlNode::Element { children, .. } => assert!(matches!(&children[0], HtmlNode::Text(t) if t == "y z")),
        _ => panic!("expected an element"),
    }
    let (none, go_on) = v.visit_element("div", vec![], vec![], render);
    assert!(none.is_none() && go_on);
    assert_eq!(v.rich_text_mappings().len(), 3);
}

#[test]
fn text_is_collected_by_id() {
    let mut v = TextCollectorVisitor::new();
    v.visit_text("lost");
    v.visit_element(&attrs(&[("id", "intro")]));
    v.visit_text("Hello ");
    v.visit_text("there");
    v.visit_element(&attrs(&[("class", "x")]));
    v.visit_text("ignored");
    assert_eq!(v.text_map().get("intro").map(|s| s.as_str()), Some("Hello there"));
    assert_eq!(v.text_map().len(), 1);
}

#[test]
fn html_assets_are_found() {
    let mut v = AssetVisitor::new("site/pages/index.html");
    v.visit_element("img", &attrs(&[("src", "./a.png"), ("alt", "x"), ("srcset", "b.png 2x")]));
    v.visit_element("link", &attrs(&[("rel", "StyleSheet"), ("href", "/main.css")]));
    v.visit_element("link", &attrs(&[("rel", "icon"), ("href", "favicon.ico")]));
    v.visit_element("video", &attrs(&[("poster", "p.jpg"), ("src", "v.mp4")]));
    v.visit_element("div", &attrs(&[("src", "no.png")]));
    let a = v.assets();
    assert_eq!(a.len(), 5);
    assert_eq!((a[0].path.as_str(), a[0].element.as_str(), a[0].attribute.as_str()), ("./a.png", "img", "src"));
    assert_eq!(a[0].file, "site/pages/a.png");
    assert_eq!(a[1].attribute, "srcset");
    assert_eq!(a[2].file, "/main.css");
    assert_eq!((a[3].element.as_str(), a[3].attribute.as_str()), ("video", "poster"));
    assert_eq!(a[4].attribute, "src");
    assert_eq!(
        a[2].describe(),
        "Asset reference:\n  \u{2192} '/main.css'\n\nReferenced in:\n  \u{2192} <link> href attribute\n  \u{2192} at /main.css\n"
    );
}

#[test]
fn asset_files_and_skipped_directories() {
    assert!(is_asset_extension("PNG"));
    assert!(is_asset_extension("docx"));
    assert!(!is_asset_extension("css"));
    assert!(is_skipped_dir("node_modules"));
    assert!(!is_skipped_dir("src"));
}
