use etch::jsx::{JsxAttr, JsxChild, JsxElement, JsxValue};
use etch::tsx::events::ElementEvent;
use etch::tsx::imports::{ImportSpecifier, TsxModule};
use etch::tsx::svg_react::{
    Action, Callback, CloseModalOptions, ElementCallbacks, FigmaExportVisitor, OpenSheetOptions, SelectTabOptions,
    ShowToastOptions,
};

fn id_attr(id: &str) -> JsxAttr {
    JsxAttr { name: "id".to_string(), value: Some(JsxValue::Str(id.to_string())) }
}

fn el(name: &str, attrs: Vec<JsxAttr>, children: Vec<JsxChild>) -> JsxElement {
    JsxElement { name: name.to_string(), attrs, children }
}

fn call(a: &JsxAttr) -> (String, Vec<(String, Option<String>)>) {
    match &a.value {
        Some(JsxValue::Call { func, props }) => (func.clone(), props.clone()),
        _ => panic!("not a call"),
    }
}

#[test]
fn handlers_call_the_action_functions_with_their_options() {
    let mut v = FigmaExportVisitor::new();
    let sheet = OpenSheetOptions { id: "menu".to_string(), side: Some("left".to_string()) };
    v.register_callback("btn".to_string(), Callback::new(ElementEvent::Click, Action::OpenSheet(sheet)));
    let toast = ShowToastOptions { title: "Hi".to_string(), description: None, variant: Some("default".to_string()) };
    v.register_callback("btn".to_string(), Callback::new(ElementEvent::MouseEnter, Action::ShowToast(toast)));
    let mut node = el("button", vec![id_attr("btn")], vec![]);
    v.visit_jsx_element(&mut node);
    assert_eq!(node.attrs.len(), 3);
    assert_eq!(node.attrs[1].name, "onClick");
    assert_eq!(
        call(&node.attrs[1]),
        (
            "openSheet".to_string(),
            vec![("id".to_string(), Some("menu".to_string())), ("side".to_string(), Some("left".to_string()))]
        )
    );
    assert_eq!(node.attrs[2].name, "onMouseEnter");
    assert_eq!(
        call(&node.attrs[2]),
        (
            "showToast".to_string(),
            vec![
                ("description".to_string(), None),
                ("title".to_string(), Some("Hi".to_string())),
                ("variant".to_string(), Some("default".to_string())),
            ]
        )
    );
}

#[test]
fn module_imports_the_used_action_functions() {
    let mut v = FigmaExportVisitor::new();
    v.register_callback(
        "tab".to_string(),
        Callback::new(ElementEvent::Tap, Action::SelectTab(SelectTabOptions { tabGroupId: "g".to_string(), tabId: "t".to_string() })),
    );
    v.register_callback("x".to_string(), Callback::new(ElementEvent::Click, Action::CloseModal(CloseModalOptions { id: "m".to_string() })));
    let inner = el("span", vec![id_attr("tab")], vec![]);
    let mut module = TsxModule { imports: vec![], elements: vec![el("div", vec![], vec![JsxChild::Element(inner)])] };
    v.visit_module(&mut module);
    let texts: Vec<String> = module
        .imports
        .iter()
        .map(|d| {
            let names: Vec<String> = d
                .specifiers
                .iter()
                .map(|s| match s {
                    ImportSpecifier::Named(n) => n.clone(),
                    ImportSpecifier::Default(n) => format!("default {}", n),
                })
                .collect();
            format!("{} from {}", names.join(","), d.src)
        })
        .collect();
    assert_eq!(texts, vec!["closeModal from @/components/ui/modal", "selectTab from @/components/ui/tabs"]);
    match &module.elements[0].children[0] {
        JsxChild::Element(e) => assert_eq!(call(&e.attrs[1]).0, "selectTab"),
        _ => panic!("expected an element"),
    }
}

#[test]
fn registered_sources_replace_the_defaults() {
    let mut v = FigmaExportVisitor::new();
    v.register_action_import("openModal", "@/lib/modal");
    v.register_callback(
        "a".to_string(),
        Callback::new(ElementEvent::Click, Action::OpenModal(etch::tsx::svg_react::OpenModalOptions { id: "m".to_string() })),
    );
    let mut module = TsxModule { imports: vec![], elements: vec![] };
    v.visit_module(&mut module);
    assert_eq!(module.imports.len(), 1);
    assert_eq!(module.imports[0].src, "@/lib/modal");
    let group = ElementCallbacks { element_id: "a".to_string(), callbacks: vec![] };
    assert!(group.callbacks.is_empty());
}
