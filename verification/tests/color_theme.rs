use etch::jsx::{JsxAttr, JsxChild, JsxElement, JsxValue};
use etch::tsx::color_theme::ColorThemeVisitor;

const PATTERN: &str = r"(?:bg|text)-\[(#[0-9a-fA-F]{6})\]";

fn upper(c: &str) -> String {
    c.to_uppercase()
}

fn class(v: &str) -> JsxAttr {
    JsxAttr { name: "className".to_string(), value: Some(JsxValue::Str(v.to_string())) }
}

fn str_value(a: &JsxAttr) -> &str {
    match &a.value {
        Some(JsxValue::Str(s)) => s.as_str(),
        _ => panic!("not a string"),
    }
}

#[test]
fn class_string_colors_are_rewritten_and_collected() {
    let mut v = ColorThemeVisitor::new(PATTERN, upper);
    let out = v.transform_class_string("p-2 bg-[#FF00aa] text-white text-[#00ff00]");
    assert_eq!(out, "p-2 bg-[#FF00AA] text-white text-[#00FF00]");
    let mut colors = v.colors().clone();
    colors.sort();
    assert_eq!(colors, vec!["#00ff00".to_string(), "#ff00aa".to_string()]);
}

#[test]
fn repeated_colors_are_collected_once() {
    let mut v = ColorThemeVisitor::new(PATTERN, |c: &str| format!("{}80", c));
    let out = v.transform_class_string("bg-[#123456] text-[#123456]");
    assert_eq!(out, "bg-[#12345680] text-[#12345680]");
    assert_eq!(v.colors(), &vec!["#123456".to_string()]);
}

#[test]
fn invalid_patterns_are_refused() {
    assert!(ColorThemeVisitor::try_new("(", upper).is_none());
    assert!(ColorThemeVisitor::try_new(PATTERN, upper).is_some());
}

#[test]
fn class_names_of_nested_elements_are_themed() {
    let mut v = ColorThemeVisitor::new(PATTERN, upper);
    let inner = JsxElement {
        name: "span".to_string(),
        attrs: vec![class("text-[#abcdef]"), JsxAttr { name: "title".to_string(), value: Some(JsxValue::Str("bg-[#abcdef]".to_string())) }],
        children: vec![],
    };
    let mut node = JsxElement { name: "div".to_string(), attrs: vec![class("bg-[#000000]")], children: vec![JsxChild::Element(inner)] };
    v.visit_jsx_element(&mut node);
    assert_eq!(str_value(&node.attrs[0]), "bg-[#000000]");
    match &node.children[0] {
        JsxChild::Element(e) => {
            assert_eq!(str_value(&e.attrs[0]), "text-[#ABCDEF]");
            assert_eq!(str_value(&e.attrs[1]), "bg-[#abcdef]");
        }
        _ => panic!("expected an element"),
    }
    assert_eq!(v.colors().len(), 2);
}

#[test]
fn an_identity_update_leaves_classes_unchanged() {
    let mut v = ColorThemeVisitor::new(PATTERN, |c: &str| c.to_string());
    let input = "bg-[#AbCdEf] text-[#123456] p-4";
    assert_eq!(v.transform_class_string(input), input);
    assert_eq!(v.colors().len(), 2);
}
