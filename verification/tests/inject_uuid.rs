use etch::jsx::{JsxAttr, JsxChild, JsxElement, JsxValue};
use etch::tsx::inject_uuid::{InjectUuidPolicy, InjectUuidVisitor};

fn str_attr(name: &str, v: &str) -> JsxAttr {
    JsxAttr { name: name.to_string(), value: Some(JsxValue::Str(v.to_string())) }
}

fn el(name: &str, attrs: Vec<JsxAttr>, children: Vec<JsxChild>) -> JsxElement {
    JsxElement { name: name.to_string(), attrs, children }
}

fn uuid_values(e: &JsxElement) -> Vec<String> {
    e.attrs
        .iter()
        .filter(|a| a.name == "data-uuid")
        .map(|a| match &a.value {
            Some(JsxValue::Str(s)) => s.clone(),
            _ => panic!("not a string"),
        })
        .collect()
}

fn looks_like_uuid(s: &str) -> bool {
    s.len() == 36
        && s.chars().enumerate().all(|(i, c)| {
            if [8, 13, 18, 23].contains(&i) { c == '-' } else { c.is_ascii_hexdigit() && !c.is_ascii_uppercase() }
        })
}

#[test]
fn every_element_gets_a_uuid_last() {
    let mut visitor = InjectUuidVisitor::new(InjectUuidPolicy::Overwrite);
    let child = el("span", vec![], vec![JsxChild::Text("t".to_string())]);
    let mut node = el("div", vec![str_attr("class", "x")], vec![JsxChild::Element(child)]);
    visitor.visit_jsx_element(&mut node);
    assert_eq!(node.attrs.len(), 2);
    assert_eq!(node.attrs[0].name, "class");
    assert_eq!(node.attrs[1].name, "data-uuid");
    let ids = uuid_values(&node);
    assert!(looks_like_uuid(&ids[0]));
    match &node.children[0] {
        JsxChild::Element(c) => {
            let inner = uuid_values(c);
            assert_eq!(inner.len(), 1);
            assert!(looks_like_uuid(&inner[0]));
            assert_ne!(inner[0], ids[0]);
        }
        _ => panic!("expected an element"),
    }
}

#[test]
fn overwrite_replaces_an_existing_uuid() {
    let mut visitor = InjectUuidVisitor::new(InjectUuidPolicy::Overwrite);
    let mut node = el("div", vec![str_attr("data-uuid", "old"), str_attr("id", "a")], vec![]);
    visitor.visit_jsx_element(&mut node);
    assert_eq!(node.attrs.len(), 2);
    assert_eq!(node.attrs[0].name, "id");
    let ids = uuid_values(&node);
    assert_eq!(ids.len(), 1);
    assert_ne!(ids[0], "old");
}

#[test]
fn keep_existing_leaves_a_uuid_in_place() {
    let mut visitor = InjectUuidVisitor::new(InjectUuidPolicy::KeepExisting);
    let child = el("span", vec![], vec![]);
    let mut node = el("div", vec![str_attr("data-uuid", "old")], vec![JsxChild::Element(child)]);
    visitor.visit_jsx_element(&mut node);
    assert_eq!(uuid_values(&node), vec!["old".to_string()]);
    match &node.children[0] {
        JsxChild::Element(c) => assert_eq!(uuid_values(c).len(), 1),
        _ => panic!("expected an element"),
    }
}

#[test]
fn keep_existing_adds_where_there_is_none() {
    let mut visitor = InjectUuidVisitor::new(InjectUuidPolicy::KeepExisting);
    let mut node = el("p", vec![], vec![]);
    visitor.visit_jsx_element(&mut node);
    assert_eq!(uuid_values(&node).len(), 1);
}

#[test]
fn a_second_keep_existing_pass_changes_nothing() {
    let mut visitor = InjectUuidVisitor::new(InjectUuidPolicy::KeepExisting);
    let child = el("span", vec![], vec![]);
    let mut node = el("div", vec![str_attr("id", "a")], vec![JsxChild::Element(child)]);
    visitor.visit_jsx_element(&mut node);
    let first = uuid_values(&node);
    let first_child = match &node.children[0] {
        JsxChild::Element(c) => uuid_values(c),
        _ => panic!("expected an element"),
    };
    visitor.visit_jsx_element(&mut node);
    assert_eq!(uuid_values(&node), first);
    match &node.children[0] {
        JsxChild::Element(c) => assert_eq!(uuid_values(c), first_child),
        _ => panic!("expected an element"),
    }
}
