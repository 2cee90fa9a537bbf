use etch::md::{MdCodeBlockKind, MarkdownTransformer, MdEvent};
use etch::rust_code::{lines_with_endings, RustTransformer};

#[test]
fn test_rust_code_highlighting() {
    // Create transformer instance
    let mut transformer = RustTransformer::new();

    // Sample Rust code
    let rust_code = "fn main() {\n    println!(\"Hello, world!\");\n}";
    let input_event: MdEvent = MdEvent::Code(rust_code.into());

    // Transform the event
    let output_event = transformer.transform_event(input_event);

    // Verify the output is HTML and contains syntax highlighting classes
    match output_event {
        MdEvent::Html(html) => {
            let html_str = html.to_string();
            assert!(html_str.contains("<span")); // Should contain syntax highlighting spans
            assert!(html_str.contains("class=")); // Should contain CSS classes
            assert!(html_str.contains("println!")); // Should contain the original code
        }
        _ => panic!("Expected HTML output"),
    }
}

#[test]
fn rust_block_text_is_highlighted() {
    let mut t = RustTransformer::default();
    let start: MdEvent = MdEvent::StartCodeBlock(MdCodeBlockKind::Fenced("rust".to_string()));
    assert!(matches!(t.transform_event(start), MdEvent::StartCodeBlock(MdCodeBlockKind::Fenced(l)) if l == "rust"));
    let text: MdEvent = MdEvent::Text("let x = 1;\n".to_string());
    match t.transform_event(text) {
        MdEvent::Html(h) => {
            assert!(h.contains("class=\"source rust\""));
            assert!(h.contains("let"));
        }
        _ => panic!("Expected HTML output"),
    }
    let end: MdEvent = MdEvent::EndCodeBlock;
    assert!(matches!(t.transform_event(end), MdEvent::EndCodeBlock));
    // After the block, text passes unchanged.
    let after: MdEvent = MdEvent::Text("let y".to_string());
    assert!(matches!(t.transform_event(after), MdEvent::Text(s) if s == "let y"));
}

#[test]
fn other_blocks_are_left_alone() {
    let mut t = RustTransformer::new();
    let start: MdEvent = MdEvent::StartCodeBlock(MdCodeBlockKind::Fenced("python".to_string()));
    t.transform_event(start);
    let text: MdEvent = MdEvent::Text("x = 1".to_string());
    assert!(matches!(t.transform_event(text), MdEvent::Text(s) if s == "x = 1"));
    let end: MdEvent = MdEvent::EndCodeBlock;
    t.transform_event(end);
    // An indented block is taken as Rust.
    let indented: MdEvent = MdEvent::StartCodeBlock(MdCodeBlockKind::Indented);
    t.transform_event(indented);
    let code: MdEvent = MdEvent::Text("fn f() {}\n".to_string());
    assert!(matches!(t.transform_event(code), MdEvent::Html(_)));
    assert!(matches!(t.transform_event(MdEvent::Rule), MdEvent::Rule));
}

#[test]
fn lines_keep_their_newlines() {
    assert_eq!(lines_with_endings("a\nbc\n\nd"), vec!["a\n", "bc\n", "\n", "d"]);
    assert_eq!(lines_with_endings("x\n"), vec!["x\n"]);
    assert!(lines_with_endings("").is_empty());
}
