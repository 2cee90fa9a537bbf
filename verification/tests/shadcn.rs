use etch::jsx::{JsxAttr, JsxChild, JsxElement, JsxValue};
use etch::shadcn::{
    create_accordion_component, create_button_component, create_carousel_component, create_drawer_component,
    create_hover_card_component, create_link_component, create_sheet_component, create_tooltip_component,
    dangerous_html_node, AccordionItem, AccordionOptions, ButtonOptions, CarouselItem, CarouselOptions, DialogContent,
    DialogOptions, DrawerOptions, HoverCardOptions, LinkOptions, RoutingLibrary, SheetOptions, TooltipOptions,
};
use etch::string_map::StringMap;

fn trigger() -> JsxElement {
    JsxElement { name: "span".to_string(), attrs: vec![], children: vec![JsxChild::Text("Go".to_string())] }
}

fn names(e: &JsxElement) -> Vec<String> {
    e.children
        .iter()
        .map(|c| match c {
            JsxChild::Element(e) => e.name.clone(),
            JsxChild::Text(t) => format!("#{}", t),
        })
        .collect()
}

fn child(e: &JsxElement, i: usize) -> &JsxElement {
    match &e.children[i] {
        JsxChild::Element(e) => e,
        JsxChild::Text(_) => panic!("expected an element"),
    }
}

fn attr_names(e: &JsxElement) -> Vec<String> {
    e.attrs.iter().map(|a: &JsxAttr| a.name.clone()).collect()
}

#[test]
fn hover_card_tree() {
    let o = HoverCardOptions {
        id: "h".to_string(),
        trigger_id: None,
        title: Some("Title".to_string()),
        description: None,
        content: Some("<b>x</b>".to_string()),
        open_delay: Some(200),
        close_delay: None,
    };
    let r = create_hover_card_component(trigger(), &o);
    assert_eq!(r.name, "HoverCard");
    assert_eq!(attr_names(&r), vec!["openDelay"]);
    assert!(matches!(r.attrs[0].value, Some(JsxValue::Number(200))));
    assert_eq!(names(&r), vec!["HoverCardTrigger", "HoverCardContent"]);
    let t = child(&r, 0);
    assert_eq!(attr_names(t), vec!["asChild"]);
    assert_eq!(names(t), vec!["span"]);
    let c = child(&r, 1);
    assert_eq!(names(c), vec!["div", "div"]);
    assert_eq!(names(child(c, 0)), vec!["#Title"]);
    assert!(matches!(&child(c, 1).attrs[0].value, Some(JsxValue::InnerHtml(h)) if h == "<b>x</b>"));
}

#[test]
fn tooltip_button_and_html() {
    let mut o = TooltipOptions::new();
    o.content = "Tip".to_string();
    o.side = Some("top".to_string());
    let r = create_tooltip_component(trigger(), &o);
    assert_eq!(names(&r), vec!["TooltipTrigger", "TooltipContent"]);
    assert_eq!(attr_names(child(&r, 1)), vec!["side"]);
    assert_eq!(names(child(&r, 1)), vec!["#Tip"]);

    let b = ButtonOptions { id: "b".to_string(), label: String::new(), variant: Some("ghost".to_string()), action: None };
    let r = create_button_component(trigger(), &b);
    assert_eq!(names(&r), vec!["span"]);
    let b2 = ButtonOptions { label: "Buy".to_string(), ..b };
    assert_eq!(names(&create_button_component(trigger(), &b2)), vec!["#Buy"]);

    let d = dangerous_html_node("<i/>".to_string());
    assert_eq!(d.name, "div");
    assert!(d.children.is_empty());
}

#[test]
fn sheet_and_drawer_trees() {
    let s = SheetOptions {
        id: "s".to_string(),
        trigger_id: None,
        title: None,
        description: Some("D".to_string()),
        side: Some("left".to_string()),
        content: None,
        has_footer: None,
        footer_buttons: None,
    };
    let r = create_sheet_component(trigger(), &s);
    let content = child(&r, 1);
    assert_eq!(attr_names(content), vec!["side"]);
    assert_eq!(names(content), vec!["SheetHeader"]);
    assert_eq!(names(child(content, 0)), vec!["SheetDescription"]);

    let d = DrawerOptions { id: "d".to_string(), title: None, description: None };
    let r = create_drawer_component(trigger(), &d);
    assert_eq!(names(child(&r, 1)), vec!["DrawerFooter"]);
    let close = child(child(&r, 1), 0);
    assert_eq!(names(close), vec!["DrawerClose"]);
    assert_eq!(names(child(close, 0)), vec!["Button"]);
}

#[test]
fn accordion_and_carousel_trees() {
    let a = AccordionOptions {
        id: "a".to_string(),
        type_: Some("single".to_string()),
        collapsible: Some(true),
        items: vec![
            AccordionItem { id: "1".to_string(), title: "One".to_string(), content: "First".to_string() },
            AccordionItem { id: "2".to_string(), title: "Two".to_string(), content: "Second".to_string() },
        ],
    };
    let r = create_accordion_component(trigger(), &a);
    assert_eq!(attr_names(&r), vec!["type", "collapsible"]);
    assert_eq!(names(&r), vec!["AccordionItem", "AccordionItem"]);
    assert_eq!(names(child(&r, 1)), vec!["AccordionTrigger", "AccordionContent"]);

    let c = CarouselOptions {
        id: "c".to_string(),
        orientation: None,
        show_navigation: None,
        items: vec![CarouselItem { id: "1".to_string(), content: "A".to_string() }],
    };
    let r = create_carousel_component(trigger(), &c);
    assert_eq!(names(&r), vec!["CarouselContent", "CarouselPrevious", "CarouselNext"]);
    let c2 = CarouselOptions { show_navigation: Some(false), ..c };
    assert_eq!(names(&create_carousel_component(trigger(), &c2)), vec!["CarouselContent"]);
}

#[test]
fn dialog_tree() {
    let mut attrs = StringMap::new();
    attrs.insert("data-x".to_string(), "1".to_string());
    let o = DialogOptions {
        id: "d".to_string(),
        title: Some("<h2>T</h2>".to_string()),
        description: Some("Desc".to_string()),
        content: Some(DialogContent::TsxImport { import_path: "@/ui/my-form.tsx".to_string(), import_name: None }),
        attributes: Some(attrs),
    };
    let never = |_: &String| -> Option<String> { None };
    let r = o.jsx_element(trigger(), &never);
    let content = child(&r, 1);
    assert_eq!(attr_names(content), vec!["className", "data-x"]);
    assert_eq!(names(content), vec!["DialogHeader", "MyForm"]);
    let svg = DialogOptions {
        id: "d".to_string(),
        title: None,
        description: None,
        content: Some(DialogContent::Uri("icon.svg".to_string())),
        attributes: None,
    };
    let read = |p: &String| -> Option<String> { if p == "icon.svg" { Some("<svg/>".to_string()) } else { None } };
    let r = svg.jsx_element(trigger(), &read);
    assert!(matches!(&child(child(&r, 1), 0).attrs[0].value, Some(JsxValue::InnerHtml(h)) if h == "<svg/>"));
    let r = svg.jsx_element(trigger(), &never);
    assert!(child(&r, 1).children.is_empty());
}

#[test]
fn links_per_routing_library() {
    let mut o = LinkOptions::default();
    o.href = "/about".to_string();
    o.replace = true;
    o.class_name = Some("x".to_string());
    let r = create_link_component(trigger(), &o);
    assert_eq!(r.name, "Link");
    assert_eq!(attr_names(&r), vec!["href", "replace"]);
    o.routing_library = Some(RoutingLibrary::ReactRouter);
    assert_eq!(attr_names(&create_link_component(trigger(), &o)), vec!["to", "replace", "className"]);
    o.routing_library = Some(RoutingLibrary::Native);
    o.target = Some("_blank".to_string());
    let r = create_link_component(trigger(), &o);
    assert_eq!(r.name, "a");
    assert_eq!(attr_names(&r), vec!["href", "target", "className"]);
    assert_eq!(RoutingLibrary::default(), RoutingLibrary::NextJs);
}
