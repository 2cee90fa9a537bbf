use etch::decimal::Decimal;
use etch::generator::{finish_emitted_jsx, TsxGenerator};
use etch::strategy::{NodeAnalyzer, PathComplexity, RenderingStrategy, SvgConfig};

#[test]
fn rendering_strategies() {
    assert!(NodeAnalyzer::should_render_as_svg("Vector", false, false));
    assert!(NodeAnalyzer::should_render_as_svg("Frame", true, false));
    assert!(!NodeAnalyzer::should_render_as_svg("Frame", true, true));
    assert!(!NodeAnalyzer::should_render_as_svg("Text", true, false));
    assert!(matches!(NodeAnalyzer::analyze_node("Text", false, false, true), RenderingStrategy::Html));
    assert!(NodeAnalyzer::should_use_external_paths("n", PathComplexity::Complex));
    assert!(!NodeAnalyzer::should_use_external_paths("n", PathComplexity::Simple));
}

#[test]
fn path_complexity() {
    assert_eq!(PathComplexity::from_path_data("M0 0 L1 1 Z"), PathComplexity::Simple);
    assert_eq!(PathComplexity::from_path_data(&"L1 1 ".repeat(5)), PathComplexity::Complex);
    assert_eq!(PathComplexity::from_path_data(&"L1 1 ".repeat(11)), PathComplexity::VeryComplex);
    let d = SvgConfig::default();
    assert!(d.use_external_paths && d.optimize && d.include_viewbox);
    assert_eq!(d.external_path_base, "assets/svg");
}

#[test]
fn decimals_print_as_display_does() {
    let d = |negative: bool, digits: u64, exponent: i32| Decimal { negative, digits, exponent };
    assert_eq!(d(false, 16, 0).to_text(), "16");
    assert_eq!(d(false, 125, -2).to_text(), "1.25");
    assert_eq!(d(true, 5, -3).to_text(), "-0.005");
    assert_eq!(d(false, 1500, -2).to_text(), "15");
    assert_eq!(d(false, 3, 2).to_text(), "300");
    assert_eq!(d(false, 0, 5).to_text(), "0");
    assert_eq!(d(false, 255, -1).trunc_u8(), 25);
    assert_eq!(d(false, 99999, 0).trunc_u8(), 255);
    assert_eq!(d(true, 7, 0).trunc_u64(), 0);
    assert!(d(false, 165, -1).gt_int(16));
    assert!(d(false, 160, -1).eq_int(16));
    assert!(d(false, 16, 0).same_text(&d(false, 160, -1)));
    assert_eq!(d(false, 5, -1).compare_int(1), -1);
}

#[test]
fn generated_files() {
    let g = TsxGenerator::new().with_react_imports(false);
    assert_eq!(g.file_extension(), "tsx");
    assert_eq!(
        g.generate_component_file("Card", "<div />"),
        "export function Card() {\n  return (\n<div />\n  );\n}\n\nexport default Card;\n"
    );
    let (name, content) = g.separate_file("ui/card-item", "<a />");
    assert_eq!(name, "ui/card-item.tsx");
    assert!(content.contains("export function UiCardItem()"));
    let (file, module) = TsxGenerator::new().single_file(&vec![("a".to_string(), "<b />".to_string())]);
    assert_eq!(file, "components.tsx");
    assert!(module.starts_with("import React from 'react';\n\n"));
    assert!(module.ends_with("// Exports\nexport { A };\n"));
    assert_eq!(finish_emitted_jsx("  <div />;;\n"), "<div />");
}
