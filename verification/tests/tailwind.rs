use etch::decimal::Decimal;
use etch::figma::{FrameNode, LayoutMode};
use etch::string_map::StringMap;
use etch::tailwind::{TailwindStyleExt, TailwindStyles};

fn px(n: u64) -> Decimal {
    Decimal { negative: false, digits: n, exponent: 0 }
}

#[test]
fn test_tailwind_styles_merge() {
    let mut styles1 = TailwindStyles {
        classes: vec!["flex".to_string(), "flex-row".to_string()],
        inline_styles: StringMap::new(),
        css_variables: StringMap::new(),
    };

    let mut inline = StringMap::new();
    inline.insert("opacity".to_string(), "0.8".to_string());
    let styles2 = TailwindStyles {
        classes: vec!["p-4".to_string()],
        inline_styles: inline,
        css_variables: StringMap::new(),
    };

    styles1.merge(styles2);

    assert_eq!(styles1.classes.len(), 3);
    assert!(styles1.classes.contains(&"flex".to_string()));
    assert!(styles1.classes.contains(&"p-4".to_string()));
    assert_eq!(styles1.inline_styles.len(), 1);
}

#[test]
fn test_extension_trait_basic() {
    let mut frame = FrameNode::new("test".to_string(), "Test Frame".to_string());
    frame.layout_mode = Some(LayoutMode::Horizontal);

    let classes = frame.to_tailwind_classes();
    assert!(classes.contains(&"flex".to_string()));
    assert!(classes.contains(&"flex-row".to_string()));

    let class_string = frame.to_tailwind_class_string();
    assert!(class_string.contains("flex"));
    assert!(class_string.contains("flex-row"));
}

#[test]
fn test_individual_methods() {
    let mut frame = FrameNode::new("test".to_string(), "Test Frame".to_string());
    frame.layout_mode = Some(LayoutMode::Vertical);
    frame.padding_top = Some(px(16));
    frame.padding_bottom = Some(px(16));
    frame.corner_radius = Some(px(8));

    let layout_classes = frame.layout_classes();
    assert!(layout_classes.contains(&"flex".to_string()));
    assert!(layout_classes.contains(&"flex-col".to_string()));

    let spacing_classes = frame.spacing_classes();
    assert!(spacing_classes.contains(&"pt-[16px]".to_string()));
    assert!(spacing_classes.contains(&"pb-[16px]".to_string()));

    let visual_classes = frame.visual_classes();
    assert!(visual_classes.contains(&"rounded-lg".to_string()));
}

#[test]
fn merge_keeps_class_order_and_prefers_merged_styles() {
    let mut a = TailwindStyles::new();
    a.classes.push("flex".to_string());
    a.inline_styles.insert("opacity".to_string(), "0.5".to_string());
    a.css_variables.insert("--x".to_string(), "1".to_string());
    let mut b = TailwindStyles::new();
    b.classes.push("p-4".to_string());
    b.inline_styles.insert("opacity".to_string(), "0.8".to_string());
    a.merge(b);
    assert_eq!(a.class_string(), "flex p-4");
    assert_eq!(a.inline_styles.get("opacity").map(|s| s.as_str()), Some("0.8"));
    assert_eq!(a.css_variables.get("--x").map(|s| s.as_str()), Some("1"));
}

#[test]
fn merging_empty_styles_changes_nothing() {
    let mut a = TailwindStyles::new();
    a.classes.push("flex".to_string());
    a.merge(TailwindStyles::new());
    assert_eq!(a.class_string(), "flex");
    assert!(!a.is_empty());
    assert!(TailwindStyles::new().is_empty());
}

#[test]
fn string_map_reads_back_what_was_written() {
    let mut m = StringMap::new();
    m.insert("a".to_string(), "1".to_string());
    m.insert("b".to_string(), "2".to_string());
    m.insert("a".to_string(), "3".to_string());
    assert_eq!(m.len(), 2);
    assert_eq!(m.get("a").map(|s| s.as_str()), Some("3"));
    assert_eq!(m.get("b").map(|s| s.as_str()), Some("2"));
    assert!(m.get("c").is_none());
}
