use etch::generator::sanitize_component_name;

#[test]
fn test_sanitize_component_name() {
    assert_eq!(
        sanitize_component_name("flow/burden/burden_of_bronchiectasis/comorbidities/page"),
        "FlowBurdenBurdenOfBronchiectasisComorbiditiesPage"
    );
    assert_eq!(sanitize_component_name("my-component-name"), "MyComponentName");
    assert_eq!(sanitize_component_name("My Component Name"), "MyComponentName");
    assert_eq!(sanitize_component_name("my_component_name"), "MyComponentName");
    assert_eq!(
        sanitize_component_name("my-component/sub_component.final"),
        "MyComponentSubComponentFinal"
    );
    assert_eq!(sanitize_component_name("component-123-test"), "Component123Test");
    assert_eq!(sanitize_component_name("123-component"), "Component123Component");
    assert_eq!(sanitize_component_name("my@component#name!"), "MyComponentName");
    assert_eq!(sanitize_component_name(""), "Component");
    assert_eq!(sanitize_component_name("component"), "Component");
    assert_eq!(sanitize_component_name("API-Component"), "ApiComponent");
}

#[test]
fn component_names_never_empty_nor_start_with_digit() {
    for name in ["", "9", "---", "7up", "a/b.c", "///"] {
        let n = sanitize_component_name(name);
        assert!(!n.is_empty());
        assert!(!n.chars().next().unwrap().is_numeric());
    }
}
