use etch::jsx::{JsxAttr, JsxChild, JsxElement, JsxValue};
use etch::keyed::KeyedMap;
use etch::tsx::callbacks::{ElementCallbacks, InjectCallbacksVisitor};
use etch::tsx::events::{Action, Callback, ElementEvent, ShowToastOptions};

fn toast(trigger: ElementEvent, message: &str) -> Callback {
    Callback::new(trigger, Action::Toast(ShowToastOptions { message: message.to_string() }))
}

fn id_attr(id: &str) -> JsxAttr {
    JsxAttr { name: "id".to_string(), value: Some(JsxValue::Str(id.to_string())) }
}

fn el(name: &str, attrs: Vec<JsxAttr>, children: Vec<JsxChild>) -> JsxElement {
    JsxElement { name: name.to_string(), attrs, children }
}

fn handler(a: &JsxAttr) -> (String, String, String) {
    match &a.value {
        Some(JsxValue::Handler { func, arg }) => (a.name.clone(), func.clone(), arg.clone()),
        _ => panic!("not a handler"),
    }
}

#[test]
fn callbacks_are_kept_in_registration_order() {
    let mut visitor = InjectCallbacksVisitor::default();
    visitor.register_callback("btn".to_string(), toast(ElementEvent::Click, "one"));
    visitor.register_callback("btn".to_string(), toast(ElementEvent::MouseEnter, "two"));
    visitor.register_callback("other".to_string(), toast(ElementEvent::Focus, "three"));
    assert_eq!(visitor.callbacks.len(), 2);
    let list = visitor.callbacks.get("btn").unwrap();
    assert_eq!(list.len(), 2);
    assert_eq!(list[0].trigger, ElementEvent::Click);
    assert_eq!(list[1].trigger, ElementEvent::MouseEnter);
}

#[test]
fn handlers_follow_the_element_attributes() {
    let mut visitor = InjectCallbacksVisitor::default();
    visitor.register_callback("btn".to_string(), toast(ElementEvent::Click, "Saved!"));
    visitor.register_callback("btn".to_string(), toast(ElementEvent::KeyDown, "Key"));
    let mut node = el("button", vec![id_attr("btn")], vec![JsxChild::Text("Save".to_string())]);
    visitor.visit_jsx_element(&mut node);
    assert_eq!(node.attrs.len(), 3);
    assert_eq!(handler(&node.attrs[1]), ("onClick".to_string(), "toast".to_string(), "Saved!".to_string()));
    assert_eq!(handler(&node.attrs[2]), ("onKeyDown".to_string(), "toast".to_string(), "Key".to_string()));
    assert!(matches!(&node.children[0], JsxChild::Text(t) if t == "Save"));
}

#[test]
fn nested_elements_get_their_handlers() {
    let mut visitor = InjectCallbacksVisitor::new(KeyedMap::new());
    visitor.register_callback("inner".to_string(), toast(ElementEvent::Tap, "hi"));
    let inner = el("span", vec![id_attr("inner")], vec![]);
    let mut node = el("div", vec![id_attr("outer")], vec![JsxChild::Element(inner)]);
    visitor.visit_jsx_element(&mut node);
    assert_eq!(node.attrs.len(), 1);
    match &node.children[0] {
        JsxChild::Element(e) => {
            assert_eq!(e.attrs.len(), 2);
            assert_eq!(handler(&e.attrs[1]).0, "onTap");
        }
        _ => panic!("expected an element"),
    }
}

#[test]
fn elements_without_registered_ids_are_unchanged() {
    let mut visitor = InjectCallbacksVisitor::default();
    visitor.register_callback("x".to_string(), toast(ElementEvent::Click, "m"));
    let flag = JsxAttr { name: "id".to_string(), value: Some(JsxValue::Number(3)) };
    let mut node = el("div", vec![flag], vec![]);
    visitor.visit_jsx_element(&mut node);
    assert_eq!(node.attrs.len(), 1);
    let group = ElementCallbacks { element_id: "x".to_string(), callbacks: vec![toast(ElementEvent::Click, "m")] };
    assert_eq!(group.callbacks.len(), 1);
}

#[test]
fn the_last_string_id_counts() {
    let mut visitor = InjectCallbacksVisitor::default();
    visitor.register_callback("b".to_string(), toast(ElementEvent::Click, "m"));
    let mut node = el("div", vec![id_attr("a"), id_attr("b")], vec![]);
    visitor.visit_jsx_element(&mut node);
    assert_eq!(node.attrs.len(), 3);
}
