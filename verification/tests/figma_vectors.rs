use etch::decimal::Decimal;
use etch::figma::{Vector, VectorNode};
use etch::figma_jsx::create_svg_placeholder_jsx;
use etch::figma_vectors::{create_svg_group_container, vector_action, ResolvedVector, VectorAction, VectorResolution};
use etch::jsx::{JsxElement, JsxValue};
use etch::keyed::KeyedMap;

fn vector(id: &str) -> VectorNode {
    VectorNode {
        id: id.to_string(),
        name: format!("Icon {}", id),
        size: Some(Vector { x: Decimal { negative: false, digits: 24, exponent: 0 }, y: Decimal { negative: false, digits: 24, exponent: 0 } }),
        fill_geometry: Some(vec!["M0 0L1 1".to_string()]),
        has_fills: true,
    }
}

fn waiting(ids: &[&str]) -> VectorResolution {
    let mut pending = KeyedMap::new();
    let mut placeholders = KeyedMap::new();
    for id in ids {
        let v = vector(id);
        placeholders.insert(id.to_string(), create_svg_placeholder_jsx(&v));
        pending.insert(id.to_string(), v);
    }
    VectorResolution::new(pending, placeholders)
}

fn attr<'a>(e: &'a JsxElement, name: &str) -> Option<&'a str> {
    e.attrs.iter().find(|a| a.name == name).and_then(|a| match &a.value {
        Some(JsxValue::Str(v)) => Some(v.as_str()),
        _ => None,
    })
}

#[test]
fn group_container_has_default_size_and_group_id() {
    let e = create_svg_group_container("group-7");
    assert_eq!(e.name, "svg");
    let names: Vec<&str> = e.attrs.iter().map(|a| a.name.as_str()).collect();
    assert_eq!(names, vec!["width", "height", "viewBox", "xmlns", "data-svg-group"]);
    assert_eq!(attr(&e, "viewBox"), Some("0 0 100 100"));
    assert_eq!(attr(&e, "data-svg-group"), Some("group-7"));
    assert!(e.children.is_empty());
}

#[test]
fn vector_rendering_follows_the_export_settings() {
    assert!(matches!(vector_action(false, true, Some("<svg/>".to_string())), VectorAction::Inline));
    assert!(matches!(vector_action(true, true, None), VectorAction::Pending));
    assert!(matches!(vector_action(true, false, Some("<svg/>".to_string())), VectorAction::Cached(s) if s == "<svg/>"));
    assert!(matches!(vector_action(true, false, None), VectorAction::Inline));
}

#[test]
fn responses_resolve_layers_until_all_are_done() {
    let mut r = waiting(&["a", "b"]);
    assert!(!r.resolve_response("a", Some("<svg>a</svg>".to_string())));
    assert!(!r.is_waiting("a"));
    assert!(!r.has_placeholder("a"));
    assert_eq!(r.resolved_count(), 1);
    // An export that failed renders the layer inline.
    assert!(r.resolve_response("b", None));
    let elements = r.resolved_elements();
    assert!(matches!(elements.get("a"), Some(ResolvedVector::Svg(s)) if s == "<svg>a</svg>"));
    assert!(matches!(elements.get("b"), Some(ResolvedVector::Inline(e)) if e.name == "svg" && attr(e, "data-name") == Some("Icon b")));
    // A response for a layer that does not wait changes nothing.
    assert!(r.resolve_response("z", None));
    assert_eq!(r.resolved_count(), 2);
}

#[test]
fn remaining_and_cached_layers_are_resolved() {
    let mut r = waiting(&["a", "b"]);
    r.resolve_remaining();
    assert!(!r.is_waiting("a") && !r.is_waiting("b"));
    assert!(r.has_placeholder("a"));
    assert!(matches!(r.resolved_elements().get("b"), Some(ResolvedVector::Inline(_))));

    let mut r = waiting(&["a", "b"]);
    let mut cache = KeyedMap::new();
    cache.insert("b".to_string(), "<svg>b</svg>".to_string());
    r.resolve_with_cache(&cache);
    assert_eq!(r.resolved_count(), 2);
    assert!(!r.has_placeholder("a") && !r.has_placeholder("b"));
    assert!(matches!(r.resolved_elements().get("a"), Some(ResolvedVector::Inline(_))));
    assert!(matches!(r.resolved_elements().get("b"), Some(ResolvedVector::Svg(s)) if s == "<svg>b</svg>"));
}
