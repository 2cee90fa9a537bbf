use etch::svg_postprocessor::SvgPostprocessor;

#[test]
fn test_svg_postprocessor_new() {
    let processor = SvgPostprocessor::new();
    assert!(processor.text_fixes.is_empty());
}

#[test]
fn test_process_svg_content() {
    let svg = r#"<svg><text>Hello</text></svg>"#;
    let result = SvgPostprocessor::process_svg_content(svg).unwrap();
    assert_eq!(result, svg);
}

#[test]
fn test_fix_superscripts() {
    let svg = r#"<text baseline-shift="super">2</text>"#;
    let result = SvgPostprocessor::fix_superscripts(svg);
    assert_eq!(result, svg); // Currently returns original content
}

#[test]
fn test_optimize_paths() {
    let svg = r#"<path d="M 10,10 L 20,20" />"#;
    let result = SvgPostprocessor::optimize_paths(svg);
    assert_eq!(result, svg); // Currently returns original content
}

#[test]
fn test_postprocess() {
    let svg = r#"<svg><text>Hello</text></svg>"#;
    let result = SvgPostprocessor::postprocess(svg);
    assert_eq!(result, svg); // Currently returns original content
}

#[test]
fn swc_visitor_processing_reports_no_fixes() {
    let svg = "<svg><text dy=\"-3\">x</text></svg>";
    let (out, fixes) = SvgPostprocessor::process_with_swc_visitor(svg).unwrap();
    assert_eq!(out, svg);
    assert!(fixes.is_empty());
}
