use etch::jsx::{JsxAttr, JsxChild, JsxElement, JsxValue};
use etch::keyed::KeyedMap;
use etch::shadcn::{ButtonOptions, DialogContent, DialogOptions, LinkOptions, RoutingLibrary};
use etch::tsx::imports::{ImportDecl, ImportSpecifier, TsxModule};
use etch::tsx::shadcn_ui::{ComponentWrapper, InjectShadcnUiVisitor};

fn id_attr(id: &str) -> JsxAttr {
    JsxAttr { name: "id".to_string(), value: Some(JsxValue::Str(id.to_string())) }
}

fn el(name: &str, attrs: Vec<JsxAttr>, children: Vec<JsxChild>) -> JsxElement {
    JsxElement { name: name.to_string(), attrs, children }
}

fn no_files(_: &String) -> Option<String> {
    None
}

fn decl_text(d: &ImportDecl) -> String {
    let specs: Vec<String> = d
        .specifiers
        .iter()
        .map(|s| match s {
            ImportSpecifier::Default(n) => format!("default {}", n),
            ImportSpecifier::Named(n) => n.clone(),
        })
        .collect();
    format!("{} from {}", specs.join(","), d.src)
}

fn button(id: &str, label: &str) -> ButtonOptions {
    ButtonOptions { id: id.to_string(), label: label.to_string(), variant: None, action: None }
}

#[test]
fn action_imports_are_sets_per_source() {
    let mut v = InjectShadcnUiVisitor::default();
    v.register_action_import("Dialog", "@/ui/dialog");
    v.register_action_import("DialogTrigger", "@/ui/dialog");
    v.register_action_import("Dialog", "@/ui/dialog");
    v.register_action_import("toast", "sonner");
    assert_eq!(v.action_imports.len(), 2);
    assert_eq!(v.action_imports.get("@/ui/dialog").unwrap(), &vec!["Dialog".to_string(), "DialogTrigger".to_string()]);
}

#[test]
fn default_imports_cover_the_components() {
    let mut v = InjectShadcnUiVisitor::default();
    v.register_default_imports();
    assert_eq!(v.action_imports.len(), 10);
    assert_eq!(v.action_imports.get("@/components/ui/sheet").unwrap().len(), 7);
    assert_eq!(v.action_imports.get("sonner").unwrap(), &vec!["toast".to_string()]);
    assert_eq!(v.action_imports.get("@/components/ui/circular-dialog").unwrap().len(), 7);
}

#[test]
fn link_imports_follow_the_routing_library() {
    let mut v = InjectShadcnUiVisitor::default();
    v.register_link_imports(&RoutingLibrary::Wouter);
    v.register_link_imports(&RoutingLibrary::Native);
    assert_eq!(v.action_imports.len(), 1);
    assert_eq!(v.action_imports.get("wouter").unwrap(), &vec!["Link".to_string()]);
    v.register_link_imports(&RoutingLibrary::NextJs);
    assert!(v.action_imports.get("next/link").is_some());
}

#[test]
fn registered_element_is_wrapped_and_others_are_kept() {
    let mut v = InjectShadcnUiVisitor::new(KeyedMap::new(), KeyedMap::new());
    v.register_component_wrapper("b".to_string(), ComponentWrapper::Button(button("b", "Buy")));
    let inner = el("span", vec![id_attr("b")], vec![]);
    let mut root = el("div", vec![id_attr("root")], vec![JsxChild::Element(inner), JsxChild::Text("t".to_string())]);
    v.visit_jsx_element(&mut root, &no_files);
    assert_eq!(root.name, "div");
    assert_eq!(root.attrs.len(), 1);
    match &root.children[0] {
        JsxChild::Element(e) => {
            assert_eq!(e.name, "Button");
            assert!(matches!(&e.children[0], JsxChild::Text(t) if t == "Buy"));
        }
        _ => panic!("expected an element"),
    }
    assert!(matches!(&root.children[1], JsxChild::Text(t) if t == "t"));
}

#[test]
fn module_gets_the_imports_it_uses() {
    let mut v = InjectShadcnUiVisitor::default();
    v.register_component_wrapper("b".to_string(), ComponentWrapper::Button(button("b", "Buy")));
    let link = LinkOptions {
        id: "l".to_string(),
        href: "/home".to_string(),
        as_button: true,
        routing_library: Some(RoutingLibrary::Wouter),
        ..LinkOptions::default()
    };
    v.register_component_wrapper("l".to_string(), ComponentWrapper::Link(link));
    let dialog = DialogOptions {
        id: "d".to_string(),
        title: None,
        description: None,
        content: Some(DialogContent::TsxImport { import_path: "./components/my-card.tsx".to_string(), import_name: None }),
        attributes: None,
    };
    v.register_component_wrapper("d".to_string(), ComponentWrapper::Dialog(dialog));
    let own = ImportDecl { specifiers: vec![ImportSpecifier::Default("React".to_string())], src: "react".to_string() };
    let mut module = TsxModule {
        imports: vec![own],
        elements: vec![el("a", vec![id_attr("l")], vec![]), el("p", vec![id_attr("d")], vec![])],
    };
    v.visit_module(&mut module, &no_files);
    let texts: Vec<String> = module.imports.iter().map(decl_text).collect();
    assert_eq!(
        texts,
        vec![
            "Dialog,DialogContent,DialogDescription,DialogFooter,DialogHeader,DialogTitle,DialogTrigger from @/components/ui/circular-dialog",
            "Button from @/components/ui/button",
            "Link from wouter",
            "default MyCard from ./components/my-card.tsx",
            "default React from react",
        ]
    );
    assert_eq!(module.elements[0].name, "Link");
    assert_eq!(module.elements[1].name, "Dialog");
}

#[test]
fn module_without_wrappers_only_gets_default_sources() {
    let mut v = InjectShadcnUiVisitor::default();
    let mut module = TsxModule { imports: vec![], elements: vec![el("p", vec![], vec![])] };
    v.visit_module(&mut module, &no_files);
    assert!(module.imports.is_empty());
    assert_eq!(v.action_imports.len(), 10);
    assert_eq!(module.elements[0].name, "p");
}

#[test]
fn import_registration_order_does_not_matter() {
    let mut a = InjectShadcnUiVisitor::default();
    a.register_action_import("A", "x");
    a.register_action_import("B", "x");
    a.register_action_import("C", "y");
    let mut b = InjectShadcnUiVisitor::default();
    b.register_action_import("C", "y");
    b.register_action_import("B", "x");
    b.register_action_import("A", "x");
    for path in ["x", "y"] {
        let mut l = a.action_imports.get(path).unwrap().clone();
        let mut r = b.action_imports.get(path).unwrap().clone();
        l.sort();
        r.sort();
        assert_eq!(l, r);
    }
}
