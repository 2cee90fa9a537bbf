use etch::figma_export::{FigmaSvgExporter, SvgExportError};
use etch::strategy::{PathComplexity, SvgConfig};

fn config(external: bool) -> SvgConfig {
    SvgConfig { use_external_paths: external, external_path_base: "assets/svg".to_string(), optimize: true, include_viewbox: true }
}

#[test]
fn placeholder_export_is_inline_and_cached() {
    let mut x = FigmaSvgExporter::new(config(true));
    let r = x.export_vector_node("1:2", "file").unwrap();
    assert!(!r.is_external);
    assert_eq!(r.svg_content, "<svg viewBox=\"0 0 100 100\"><path d=\"M10,10 L90,90\"/></svg>");
    assert_eq!(r.viewbox.as_deref(), Some("0 0 100 100"));
    assert_eq!(r.path_data.as_deref(), Some("M10,10 L90,90"));
    let again = x.export_vector_node("1:2", "file").unwrap();
    assert_eq!(again.svg_content, r.svg_content);
    assert!(x.get_external_path("1:2").is_none());
}

#[test]
fn complexity_and_external_files() {
    let mut x = FigmaSvgExporter::new(config(false));
    assert_eq!(x.analyze_svg_complexity("<svg><path/></svg>"), PathComplexity::Simple);
    let two = "<svg><path/><path/></svg>";
    assert_eq!(x.analyze_svg_complexity(two), PathComplexity::Complex);
    let many = "<path/>".repeat(6);
    assert_eq!(x.analyze_svg_complexity(&many), PathComplexity::VeryComplex);
    assert!(!x.should_use_external_paths(PathComplexity::Complex));
    assert!(x.should_use_external_paths(PathComplexity::VeryComplex));
    let r = x.export_to_external_file("<svg/>", "n1");
    assert!(r.is_external);
    assert_eq!(r.external_path.as_deref(), Some("assets/svg/n1.svg"));
    assert_eq!(x.get_external_path("n1").map(|s| s.as_str()), Some("assets/svg/n1.svg"));
    assert_eq!(x.generate_path_mapping(), "export default {\n  n1: \"assets/svg/n1.svg\",\n};\n");
    assert_eq!(SvgExportError::FileError("disk".to_string()).to_string(), "Failed to write external file: disk");
}
