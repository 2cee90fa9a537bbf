use etch::jsx::{JsxAttr, JsxChild, JsxElement, JsxValue};
use etch::keyed::KeyedMap;
use etch::tsx::framer_motion::{AnimationConfig, FramerMotionVisitor};
use etch::tsx::imports::{ImportDecl, ImportSpecifier, TsxModule};

fn id_attr(id: &str) -> JsxAttr {
    JsxAttr { name: "id".to_string(), value: Some(JsxValue::Str(id.to_string())) }
}

fn el(name: &str, attrs: Vec<JsxAttr>, children: Vec<JsxChild>) -> JsxElement {
    JsxElement { name: name.to_string(), attrs, children }
}

fn fade(inherit: bool) -> AnimationConfig {
    AnimationConfig {
        initial: Some("{\"opacity\":0}".to_string()),
        animate: Some("{\"opacity\":1}".to_string()),
        exit: None,
        variants: Some("{}".to_string()),
        transition: Some("{\"duration\":0.5}".to_string()),
        inherit_children: inherit,
    }
}

fn child(e: &JsxElement, i: usize) -> &JsxElement {
    match &e.children[i] {
        JsxChild::Element(e) => e,
        _ => panic!("expected an element"),
    }
}

fn attr_names(e: &JsxElement) -> Vec<String> {
    e.attrs.iter().map(|a| a.name.clone()).collect()
}

#[test]
fn animated_element_becomes_a_motion_element() {
    let mut v = FramerMotionVisitor::default();
    v.register_animation("hero".to_string(), fade(false));
    let mut node = el("div", vec![id_attr("hero")], vec![]);
    v.visit_jsx_element(&mut node);
    assert_eq!(node.name, "motion.div");
    assert_eq!(attr_names(&node), vec!["id", "initial", "animate", "transition"]);
    assert!(matches!(&node.attrs[1].value, Some(JsxValue::Expr(e)) if e == "{\"opacity\":0}"));
}

#[test]
fn children_inherit_where_the_animation_says_so() {
    let mut v = FramerMotionVisitor::new(KeyedMap::new());
    v.register_animation("list".to_string(), fade(true));
    let item = el("li", vec![], vec![JsxChild::Text("x".to_string())]);
    let mut node = el("ul", vec![id_attr("list")], vec![JsxChild::Element(item)]);
    v.visit_jsx_element(&mut node);
    assert_eq!(node.name, "motion.ul");
    assert_eq!(child(&node, 0).name, "motion.li");
    assert_eq!(attr_names(child(&node, 0)), vec!["initial", "animate", "transition"]);
}

#[test]
fn children_do_not_inherit_otherwise() {
    let mut v = FramerMotionVisitor::default();
    v.register_animation("list".to_string(), fade(false));
    let item = el("li", vec![], vec![]);
    let mut node = el("ul", vec![id_attr("list")], vec![JsxChild::Element(item)]);
    v.visit_jsx_element(&mut node);
    assert_eq!(child(&node, 0).name, "li");
    assert!(child(&node, 0).attrs.is_empty());
}

#[test]
fn a_non_inheriting_child_passes_on_its_parents_animation() {
    let mut v = FramerMotionVisitor::default();
    v.register_animation("outer".to_string(), fade(true));
    let mut inner_anim = AnimationConfig::default();
    inner_anim.animate = Some("{\"x\":10}".to_string());
    inner_anim.inherit_children = false;
    v.register_animation("inner".to_string(), inner_anim);
    let leaf = el("span", vec![], vec![]);
    let inner = el("p", vec![id_attr("inner")], vec![JsxChild::Element(leaf)]);
    let mut node = el("section", vec![id_attr("outer")], vec![JsxChild::Element(inner)]);
    v.visit_jsx_element(&mut node);
    let p = child(&node, 0);
    assert_eq!(p.name, "motion.p");
    assert_eq!(attr_names(p), vec!["id", "animate"]);
    let span = child(p, 0);
    assert_eq!(span.name, "motion.span");
    assert_eq!(attr_names(span), vec!["initial", "animate", "transition"]);
}

#[test]
fn module_imports_motion_first() {
    let mut v = FramerMotionVisitor::default();
    let own = ImportDecl { specifiers: vec![ImportSpecifier::Default("React".to_string())], src: "react".to_string() };
    let mut module = TsxModule { imports: vec![own], elements: vec![el("div", vec![], vec![])] };
    v.visit_module(&mut module);
    assert_eq!(module.imports.len(), 2);
    assert_eq!(module.imports[0].src, "framer-motion");
    assert!(matches!(&module.imports[0].specifiers[0], ImportSpecifier::Named(n) if n == "motion"));
    assert_eq!(module.elements[0].name, "div");
}

#[test]
fn no_animation_changes_nothing() {
    let mut v = FramerMotionVisitor::default();
    let inner = el("span", vec![id_attr("s")], vec![JsxChild::Text("t".to_string())]);
    let mut node = el("div", vec![id_attr("d")], vec![JsxChild::Element(inner)]);
    v.visit_jsx_element(&mut node);
    assert_eq!(node.name, "div");
    assert_eq!(attr_names(&node), vec!["id"]);
    assert_eq!(child(&node, 0).name, "span");
}
