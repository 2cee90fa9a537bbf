use etch::md::{Etcher, FootnoteTransformer, KeepEvents, MarkdownTransformer, MdEvent, TailwindTransformer, TransformerPipeline};
use etch::md_events::{parse_markdown, render_html};

fn text(e: &MdEvent) -> Option<&str> {
    match e {
        MdEvent::Text(t) => Some(t.as_str()),
        MdEvent::Html(t) => Some(t.as_str()),
        _ => None,
    }
}

#[test]
fn references_are_numbered_by_first_use() {
    let mut f = FootnoteTransformer::new();
    let a = f.transform_event(MdEvent::FootnoteReference("b".to_string()));
    assert_eq!(
        text(&a),
        Some("<sup class=\"footnote-reference\" id=\"fr-b-b\"><a href=\"#fn-b\">[1]</a></sup>")
    );
    let b = f.transform_event(MdEvent::FootnoteReference("a".to_string()));
    assert!(text(&b).unwrap().contains("[2]"));
    let c = f.transform_event(MdEvent::FootnoteReference("b".to_string()));
    assert!(text(&c).unwrap().contains("[1]"));
}

#[test]
fn definitions_are_held_back_and_ordered() {
    let mut f = FootnoteTransformer::default();
    assert_eq!(f.get_footnotes_html(), "");
    // Definitions of a, b and an unreferenced c, in that order.
    for name in ["a", "b", "c"] {
        let e = f.transform_event(MdEvent::StartFootnoteDefinition(name.to_string()));
        assert_eq!(text(&e), Some(""));
        let e = f.transform_event(MdEvent::Text(format!("note {}", name)));
        assert_eq!(text(&e), Some(""));
        let e = f.transform_event(MdEvent::EndFootnoteDefinition);
        assert_eq!(text(&e), Some(""));
    }
    let passed = f.transform_event(MdEvent::Rule);
    assert!(matches!(passed, MdEvent::Rule));
    f.transform_event(MdEvent::FootnoteReference("b".to_string()));
    f.transform_event(MdEvent::FootnoteReference("a".to_string()));
    assert_eq!(f.ordered_footnotes(), vec![1, 0]);
    let html = f.get_footnotes_html();
    assert!(html.starts_with("<hr><ol class=\"footnotes-list\">\n"));
    assert!(html.ends_with("</ol>\n"));
    let (b, a) = (html.find("note b").unwrap(), html.find("note a").unwrap());
    assert!(b < a);
    assert!(!html.contains("note c"));
}

#[test]
fn markdown_is_parsed_and_rendered() {
    let events = parse_markdown("# Title\n\nSome *text*.");
    assert!(matches!(events[0], MdEvent::StartHeading(_, _)));
    assert_eq!(render_html(events), "<h1>Title</h1>\n<p>Some <em>text</em>.</p>\n");
}

#[test]
fn etcher_renders_with_tailwind_and_footnotes() {
    let etcher = Etcher::new("# Hi\n\nA claim.[^n]\n\n[^n]: The source.\n");
    let html = etcher.parse_with_tailwind().unwrap();
    assert!(html.contains("<h1 class=\"text-4xl font-bold mb-6\">Hi</h1>"));
    assert!(html.contains("<p class=\"text-gray-700 leading-relaxed mb-4\">A claim."));
    assert!(html.contains("<a href=\"#fn-n\">[1]</a>"));
    let notes = html.find("<hr><ol class=\"footnotes-list\">").unwrap();
    assert!(html[notes..].contains("The source."));
    assert!(!html[..notes].contains("The source."));
}

#[test]
fn pipelines_run_in_order() {
    let mut pipeline = TransformerPipeline::new().add(TailwindTransformer).add(KeepEvents);
    let html = Etcher::new("Para").parse_with_pipeline(&mut pipeline).unwrap();
    assert_eq!(html, "<p class=\"text-gray-700 leading-relaxed mb-4\">Para</p>");
    assert_eq!(Etcher::default().parse(&mut KeepEvents).unwrap(), "");
}
