use etch::decimal::Decimal;
use etch::jsx::{JsxAttr, JsxChild, JsxElement, JsxValue};
use etch::keyed::KeyedMap;
use etch::tsx::filter::{FilterVisitor, GlowFilterProps};
use etch::tsx::imports::{ImportSpecifier, TsxModule};

fn num(digits: u64, exponent: i32) -> Decimal {
    Decimal { negative: false, digits, exponent }
}

fn str_attr(name: &str, v: &str) -> JsxAttr {
    JsxAttr { name: name.to_string(), value: Some(JsxValue::Str(v.to_string())) }
}

fn el(name: &str, attrs: Vec<JsxAttr>, children: Vec<JsxChild>) -> JsxElement {
    JsxElement { name: name.to_string(), attrs, children }
}

fn create_test_svg_with_elements() -> TsxModule {
    let circle = el(
        "circle",
        vec![str_attr("id", "test-circle"), str_attr("cx", "100"), str_attr("cy", "100"), str_attr("r", "50"), str_attr("fill", "blue")],
        vec![],
    );
    let rect = el(
        "rect",
        vec![str_attr("x", "25"), str_attr("y", "25"), str_attr("width", "150"), str_attr("height", "150"), str_attr("fill", "red")],
        vec![],
    );
    let svg = el("svg", vec![str_attr("width", "200"), str_attr("height", "200")], vec![JsxChild::Element(circle), JsxChild::Element(rect)]);
    TsxModule { imports: vec![], elements: vec![svg] }
}

fn child(e: &JsxElement, i: usize) -> &JsxElement {
    match &e.children[i] {
        JsxChild::Element(e) => e,
        _ => panic!("expected an element"),
    }
}

fn attr_names(e: &JsxElement) -> Vec<String> {
    e.attrs.iter().map(|a| a.name.clone()).collect()
}

#[test]
fn test_filter_visitor_adds_import() {
    let mut module = create_test_svg_with_elements();

    // Create a glow filter configuration
    let mut glow_filters = KeyedMap::new();
    glow_filters.insert(
        "test-circle".to_string(),
        GlowFilterProps {
            id: "test-circle-glow".to_string(),
            color: "#00ff00".to_string(),
            intensity: Some(num(2, 0)),
            animated: Some(true),
            duration: Some(num(15, -1)),
            pulsing: Some(true),
            glow_layers: Some(4),
            ..Default::default()
        },
    );

    let mut visitor = FilterVisitor::new(glow_filters);
    visitor.visit_module(&mut module);

    // Check that an import was added
    assert!(!module.imports.is_empty());
    let import_decl = &module.imports[0];
    assert_eq!(import_decl.src, "@/components/filters/glow-filter");
    assert_eq!(import_decl.specifiers.len(), 1);
    match &import_decl.specifiers[0] {
        ImportSpecifier::Named(name) => assert_eq!(name, "GlowFilter"),
        _ => panic!("Expected named import specifier"),
    }
}

#[test]
fn test_filter_visitor_no_import_when_no_filters() {
    let mut module = create_test_svg_with_elements();
    let original_body_len = module.imports.len() + module.elements.len();

    // Create visitor with no glow filters
    let mut visitor = FilterVisitor::new(KeyedMap::new());
    visitor.visit_module(&mut module);

    // Check that no import was added
    assert_eq!(module.imports.len() + module.elements.len(), original_body_len);
}

#[test]
fn test_glow_filter_props_default() {
    let default_props = GlowFilterProps::default();

    assert_eq!(default_props.id, "");
    assert_eq!(default_props.color, "#ffffff");
    assert_eq!(default_props.intensity, Some(num(1, 0)));
    assert_eq!(default_props.animated, Some(false));
    assert_eq!(default_props.duration, Some(num(1, 0)));
    assert_eq!(default_props.delay, Some(num(0, 0)));
    assert_eq!(default_props.easing, Some("easeInOut".to_string()));
    assert_eq!(default_props.glow_layers, Some(3));
    assert_eq!(default_props.max_intensity, Some(num(2, 0)));
    assert_eq!(default_props.pulsing, Some(false));
    assert_eq!(default_props.interactive, Some(false));
    assert_eq!(default_props.on_hover, None);
}

#[test]
fn test_filter_visitor_register_glow_filter() {
    let mut visitor = FilterVisitor::new(KeyedMap::new());

    let filter_props = GlowFilterProps {
        id: "dynamic-filter".to_string(),
        color: "#00ffff".to_string(),
        intensity: Some(num(3, 0)),
        ..Default::default()
    };

    visitor.register_glow_filter("dynamic-element".to_string(), filter_props.clone());

    assert!(visitor.glow_filters.get("dynamic-element").is_some());
    assert_eq!(visitor.glow_filters.get("dynamic-element").unwrap().id, "dynamic-filter");
    assert_eq!(visitor.glow_filters.get("dynamic-element").unwrap().color, "#00ffff");
    assert_eq!(visitor.glow_filters.get("dynamic-element").unwrap().intensity, Some(num(3, 0)));
}

#[test]
fn glow_filter_component_props() {
    let visitor = FilterVisitor::new(KeyedMap::new());
    let props = GlowFilterProps {
        id: "test-glow".to_string(),
        color: "#ff00ff".to_string(),
        intensity: Some(num(25, -1)),
        animated: Some(true),
        duration: Some(num(30, -1)),
        pulsing: Some(false),
        interactive: Some(true),
        glow_layers: Some(5),
        ..Default::default()
    };
    let jsx_element = visitor.create_glow_filter_component(&props);
    assert_eq!(jsx_element.name, "GlowFilter");
    assert!(jsx_element.children.is_empty());
    assert_eq!(
        attr_names(&jsx_element),
        vec!["id", "color", "intensity", "animated", "duration", "pulsing", "interactive", "glowLayers"]
    );
    assert!(matches!(&jsx_element.attrs[2].value, Some(JsxValue::Expr(t)) if t == "2.5"));
    assert!(matches!(&jsx_element.attrs[4].value, Some(JsxValue::Expr(t)) if t == "3"));
    assert!(matches!(jsx_element.attrs[7].value, Some(JsxValue::Number(5))));
}

#[test]
fn svg_gets_defs_with_the_filters_of_its_elements() {
    let mut module = create_test_svg_with_elements();
    let mut visitor = FilterVisitor::default();
    visitor.register_glow_filter("test-circle".to_string(), GlowFilterProps { id: "glow".to_string(), ..Default::default() });
    visitor.visit_module(&mut module);
    let svg = &module.elements[0];
    assert_eq!(svg.children.len(), 3);
    let defs = child(svg, 0);
    assert_eq!(defs.name, "defs");
    assert_eq!(child(defs, 0).name, "GlowFilter");
    let circle = child(svg, 1);
    assert_eq!(attr_names(circle).last().unwrap(), "filter");
    assert!(matches!(&circle.attrs[5].value, Some(JsxValue::Str(v)) if v == "url(#glow)"));
    assert!(child(svg, 2).attrs.iter().all(|a| a.name != "filter"));
}

#[test]
fn elements_outside_svg_get_the_attribute_only() {
    let mut visitor = FilterVisitor::default();
    visitor.register_glow_filter("box".to_string(), GlowFilterProps { id: "g".to_string(), ..Default::default() });
    let mut node = el("div", vec![str_attr("id", "box")], vec![]);
    visitor.visit_jsx_element(&mut node);
    assert_eq!(attr_names(&node), vec!["id", "filter"]);
    assert!(node.children.is_empty());
}
