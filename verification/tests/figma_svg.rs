use etch::jsx::{JsxAttr, JsxValue};
use etch::tsx::figma_svg::{baseline_shift, optimize_path_data, FigmaSvgConfig, FigmaSvgVisitor, ShiftTree};

fn d_attr(value: &str) -> JsxAttr {
    JsxAttr { name: "d".to_string(), value: Some(JsxValue::Str(value.to_string())) }
}

#[test]
fn test_path_optimization() {
    let mut visitor = FigmaSvgVisitor::new();

    let mut attr = d_attr("M 10,10 M 10,10 L 20,20 L 30,20");

    visitor.visit_jsx_attr(&mut attr);

    if let Some(JsxValue::Str(optimized_path)) = &attr.value {
        // Should have removed redundant M command
        assert!(!optimized_path.contains("M 10,10 M 10,10"));
    }
}

#[test]
fn path_rewrites_give_exact_results() {
    assert_eq!(optimize_path_data("M 10,10 M 10,10 L 20,20 L 30,20"), "M 10,10 L 20,20 H 30");
    assert_eq!(optimize_path_data("L 5,1 L 5,9"), "L 5,1 V 9");
    assert_eq!(optimize_path_data("M1.5 , -2  M 1.5,-2"), "M 1.5,-2");
    assert_eq!(optimize_path_data("M 1,2 M 1,3"), "M 1,2 M 1,3");
    assert_eq!(optimize_path_data("M 1,2M 1,2"), "M 1,2M 1,2");
    assert_eq!(optimize_path_data(""), "");
    assert_eq!(optimize_path_data("C 1,2 3,4 5,6"), "C 1,2 3,4 5,6");
}

#[test]
fn path_rewrite_leaves_other_attributes() {
    let mut visitor = FigmaSvgVisitor::new();
    let mut attr = JsxAttr {
        name: "fill".to_string(),
        value: Some(JsxValue::Str("M 1,1 M 1,1".to_string())),
    };
    visitor.visit_jsx_attr(&mut attr);
    assert!(matches!(&attr.value, Some(JsxValue::Str(v)) if v == "M 1,1 M 1,1"));
}

#[test]
fn path_rewrite_can_be_switched_off() {
    let config = FigmaSvgConfig { fix_superscripts: true, optimize_paths: false, extract_text_elements: false };
    let mut visitor = FigmaSvgVisitor::with_config(config);
    let mut attr = d_attr("M 1,1 M 1,1");
    visitor.visit_jsx_attr(&mut attr);
    assert!(matches!(&attr.value, Some(JsxValue::Str(v)) if v == "M 1,1 M 1,1"));
    assert!(!visitor.config().optimize_paths);
}

#[test]
fn default_figma_svg_config() {
    let c = FigmaSvgConfig::default();
    assert!(c.fix_superscripts && c.optimize_paths && !c.extract_text_elements);
}

use etch::jsx::{JsxChild, JsxElement};

fn text_el(attrs: Vec<JsxAttr>) -> JsxElement {
    JsxElement { name: "text".to_string(), attrs, children: vec![JsxChild::Text("2".to_string())] }
}

fn s_attr(name: &str, v: &str) -> JsxAttr {
    JsxAttr { name: name.to_string(), value: Some(JsxValue::Str(v.to_string())) }
}

#[test]
fn superscript_text_becomes_a_raised_tspan() {
    let mut visitor = FigmaSvgVisitor::new();
    let mut element = text_el(vec![s_attr("baseline-shift", "super"), s_attr("font-size", "8"), s_attr("x", "4")]);
    visitor.fix_text_element(&mut element, true, false);
    let fixes = visitor.get_text_fixes();
    assert_eq!(fixes.len(), 1);
    assert!(fixes[0].is_superscript);
    assert_eq!(fixes[0].element_id, "text_0");
    assert_eq!(fixes[0].original_attrs.len(), 3);
    assert_eq!(element.name, "tspan");
    let names: Vec<&str> = element.attrs.iter().map(|a| a.name.as_str()).collect();
    assert_eq!(names, vec!["dy", "font-size", "x"]);
    assert!(matches!(&element.attrs[0].value, Some(JsxValue::Str(v)) if v == "-0.3em"));
    assert!(matches!(&element.attrs[1].value, Some(JsxValue::Str(v)) if v == "0.8em"));
    assert!(matches!(&element.children[0], JsxChild::Text(t) if t == "2"));
}

#[test]
fn subscript_fix_keeps_the_element_id() {
    let mut visitor = FigmaSvgVisitor::new();
    let mut element = text_el(vec![s_attr("id", "t1"), s_attr("dy", "3")]);
    visitor.fix_text_element(&mut element, false, true);
    assert_eq!(visitor.get_text_fixes()[0].element_id, "t1");
    assert!(matches!(&element.attrs[0].value, Some(JsxValue::Str(v)) if v == "0.3em"));
    assert_eq!(element.attrs.len(), 3);
}

#[test]
fn test_config_disable_superscript_fix_model() {
    let config = FigmaSvgConfig { fix_superscripts: false, optimize_paths: true, extract_text_elements: false };
    let mut visitor = FigmaSvgVisitor::with_config(config);
    let mut element = text_el(vec![s_attr("baseline-shift", "super")]);
    visitor.fix_text_element(&mut element, true, false);
    assert_eq!(element.name, "text");
    assert!(visitor.get_text_fixes().is_empty());
}

#[test]
fn other_elements_are_not_fixed() {
    let mut visitor = FigmaSvgVisitor::new();
    let mut element = JsxElement { name: "rect".to_string(), attrs: vec![], children: vec![] };
    visitor.fix_text_element(&mut element, true, true);
    assert_eq!(element.name, "rect");
    assert!(visitor.get_text_fixes().is_empty());
}

#[test]
fn optimized_paths_are_never_longer() {
    for p in ["M 1,1 M 1,1 M 1,1", "L 1,1 L 2,1 L 3,1", "L 0,0 L 0,5", "M 3,4   M 3,4", "Q 1,2 3,4", ""] {
        assert!(optimize_path_data(p).chars().count() <= p.chars().count());
    }
    assert_eq!(optimize_path_data("M 1,1 M 1,1 M 1,1"), "M 1,1 M 1,1");
    assert_eq!(optimize_path_data("L 1,1 L 2,1 L 3,1"), "L 1,1 H 2 L 3,1");
}

#[test]
fn baseline_shift_values() {
    assert_eq!(baseline_shift("super"), (true, false));
    assert_eq!(baseline_shift("+3px"), (true, false));
    assert_eq!(baseline_shift("sub"), (false, true));
    assert_eq!(baseline_shift("-2"), (false, true));
    assert_eq!(baseline_shift("baseline"), (false, false));
}

#[test]
fn tree_visit_fixes_text_and_paths_below() {
    let sup = text_el(vec![s_attr("baseline-shift", "super")]);
    let plain = text_el(vec![s_attr("id", "t2")]);
    let path = JsxElement { name: "path".to_string(), attrs: vec![d_attr("M 1,1 M 1,1")], children: vec![] };
    let mut svg = JsxElement {
        name: "svg".to_string(),
        attrs: vec![],
        children: vec![JsxChild::Element(path), JsxChild::Element(sup), JsxChild::Element(plain)],
    };
    let shifts = ShiftTree {
        superscript: false,
        subscript: false,
        children: vec![ShiftTree::none(), ShiftTree { superscript: true, subscript: false, children: vec![] }],
    };
    let mut visitor = FigmaSvgVisitor::new();
    visitor.visit_jsx_element(&mut svg, &shifts);
    let child = |i: usize| match &svg.children[i] {
        JsxChild::Element(e) => e,
        _ => panic!("expected an element"),
    };
    assert!(matches!(&child(0).attrs[0].value, Some(JsxValue::Str(d)) if d == "M 1,1"));
    assert_eq!(child(1).name, "tspan");
    // The third child has no shift (past the end of the tree), so it stays.
    assert_eq!(child(2).name, "text");
    assert_eq!(visitor.get_text_fixes().len(), 1);
    assert_eq!(visitor.get_text_fixes()[0].element_id, "text_0");
}
