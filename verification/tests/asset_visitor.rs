use etch::tsx::asset_visitor::{AssetReference, AssetType, AssetVisitor, ReferenceType};
use std::collections::HashSet;

/// The files and directories of the test project, rooted at `/project`.
fn create_test_structure() -> (HashSet<String>, String, String) {
    let project_root = "/project".to_string();
    let src_dir = format!("{}/src", project_root);
    let mut existing = HashSet::new();
    for p in [
        "/project/src",
        "/project/public",
        "/project/src/assets",
        "/project/src/data",
        "/project/src/assets/icon.svg",
        "/project/public/video.mp4",
        "/project/public/poster.jpg",
    ] {
        existing.insert(p.to_string());
    }
    (existing, project_root, src_dir)
}

#[test]
fn test_asset_extraction_from_imports() {
    let (existing, project_root, src_dir) = create_test_structure();
    let exists = |p: &String| existing.contains(p);
    let test_file = format!("{}/test.tsx", src_dir);
    let target_dir = format!("{}/target", project_root);

    let mut visitor = AssetVisitor::new(&test_file, &src_dir, &target_dir);

    visitor.extract_asset("@/assets/icon.svg", ReferenceType::ImportStatement, &exists);
    visitor.extract_asset("/video.mp4", ReferenceType::ImportStatement, &exists);

    let assets = visitor.assets();
    assert_eq!(assets.len(), 2);

    let ts_asset = &assets[0];
    assert_eq!(ts_asset.original_path, "@/assets/icon.svg");
    assert!(ts_asset.resolved_path.ends_with("src/assets/icon.svg"));

    let public_asset = &assets[1];
    assert_eq!(public_asset.original_path, "/video.mp4");
    assert!(public_asset.resolved_path.ends_with("public/video.mp4"));
}

#[test]
fn test_asset_extraction_from_data_files() {
    let (existing, project_root, src_dir) = create_test_structure();
    let exists = |p: &String| existing.contains(p);
    let test_file = format!("{}/data/landing.tsx", src_dir);
    let target_dir = format!("{}/target", project_root);

    let mut visitor = AssetVisitor::new(&test_file, &src_dir, &target_dir);

    visitor.extract_asset("poster.jpg", ReferenceType::StringLiteral, &exists);
    visitor.extract_asset("video.mp4", ReferenceType::StringLiteral, &exists);

    let assets = visitor.assets();
    assert_eq!(assets.len(), 2);

    for asset in assets {
        assert!(asset.resolved_path.contains("public"));
    }
}

#[test]
fn test_path_mapping_updates() {
    let (_existing, project_root, src_dir) = create_test_structure();
    let test_file = format!("{}/test.tsx", src_dir);
    let target_dir = format!("{}/target", project_root);

    let mut visitor = AssetVisitor::new(&test_file, &src_dir, &target_dir);

    visitor.add_path_mapping("@/assets/icon.svg".to_string(), "/locales/en/icon.svg".to_string());
    visitor.add_path_mapping("poster.jpg".to_string(), "/locales/en/poster.jpg".to_string());

    let mut str_node = "@/assets/icon.svg".to_string();
    visitor.update_string_literal(&mut str_node);
    assert_eq!(str_node, "/locales/en/icon.svg");

    let mut str_node2 = "poster.jpg".to_string();
    visitor.update_string_literal(&mut str_node2);
    assert_eq!(str_node2, "/locales/en/poster.jpg");
}

#[test]
fn test_asset_type_detection() {
    let (_existing, project_root, src_dir) = create_test_structure();
    let test_file = format!("{}/test.tsx", src_dir);
    let target_dir = format!("{}/target", project_root);

    let visitor = AssetVisitor::new(&test_file, &src_dir, &target_dir);

    assert!(matches!(visitor.get_asset_type("image.jpg"), AssetType::Image));
    assert!(matches!(visitor.get_asset_type("video.mp4"), AssetType::Video));
    assert!(matches!(visitor.get_asset_type("audio.mp3"), AssetType::Audio));
    assert!(matches!(visitor.get_asset_type("doc.pdf"), AssetType::Document));
    assert!(matches!(visitor.get_asset_type("unknown.xyz"), AssetType::Other(_)));
}

#[test]
fn test_typescript_path_alias_resolution() {
    let (_existing, project_root, src_dir) = create_test_structure();
    let test_file = format!("{}/test.tsx", src_dir);
    let target_dir = format!("{}/target", project_root);

    let visitor = AssetVisitor::new(&test_file, &src_dir, &target_dir);

    assert_eq!(visitor.resolve_ts_path_alias("@/assets/icon.svg"), Some("assets/icon.svg".to_string()));
    assert_eq!(visitor.resolve_ts_path_alias("./local/file.jpg"), None);
}

#[test]
fn test_is_asset_path() {
    let (_existing, project_root, src_dir) = create_test_structure();
    let test_file = format!("{}/test.tsx", src_dir);
    let target_dir = format!("{}/target", project_root);

    let visitor = AssetVisitor::new(&test_file, &src_dir, &target_dir);

    assert!(visitor.is_asset_path("image.jpg"));
    assert!(visitor.is_asset_path("@/assets/icon.svg"));
    assert!(visitor.is_asset_path("/public/video.mp4"));
    assert!(visitor.is_asset_path("./media/audio.mp3"));

    assert!(!visitor.is_asset_path("component"));
    assert!(!visitor.is_asset_path("some text"));
    assert!(!visitor.is_asset_path("http://example.com"));
}

#[test]
fn test_generate_target_path() {
    let (_existing, project_root, _src_dir) = create_test_structure();

    let asset = AssetReference {
        original_path: "poster.jpg".to_string(),
        resolved_path: format!("{}/public/poster.jpg", project_root),
        asset_type: AssetType::Image,
        reference_type: ReferenceType::StringLiteral,
    };

    let target_dir = format!("{}/public/locales/en", project_root);
    let target_path = asset.generate_target_path(&target_dir);

    assert_eq!(target_path, format!("{}/poster.jpg", target_dir));
}

#[test]
fn test_update_string_literal_directly() {
    let (_existing, project_root, src_dir) = create_test_structure();
    let test_file = format!("{}/test.tsx", src_dir);
    let target_dir = format!("{}/target", project_root);

    let mut visitor = AssetVisitor::new(&test_file, &src_dir, &target_dir);

    visitor.add_path_mapping("video.mp4".to_string(), "/locales/en/video.mp4".to_string());

    let mut str_node = "video.mp4".to_string();
    visitor.update_string_literal(&mut str_node);
    assert_eq!(str_node, "/locales/en/video.mp4");
}

#[test]
fn missing_files_default_to_public() {
    let none = |_: &String| false;
    let v = AssetVisitor::new("/p/src/pages/a.tsx", "/p/src", "/p/out");
    assert_eq!(v.resolve_path("/img/logo.png", &none), "/p/public/img/logo.png");
    assert_eq!(v.resolve_path("logo.png", &none), "/p/public/logo.png");
    assert_eq!(v.resolve_path("./img/logo.png", &none), "/p/src/pages/./img/logo.png");
    assert_eq!(v.resolve_path("@/img/logo.png", &none), "/p/src/img/logo.png");
}

#[test]
fn first_existing_candidate_wins() {
    let v = AssetVisitor::new("/p/src/pages/a.tsx", "/p/src", "/p/out");
    let in_static = |p: &String| p == "/p/static/x.png" || p == "/p/x.png";
    assert_eq!(v.resolve_path("/x.png", &in_static), "/p/static/x.png");
    let beside = |p: &String| p == "/p/src/pages/images/logo.png" || p == "/p/src/images/logo.png";
    assert_eq!(v.resolve_path("logo.png", &beside), "/p/src/pages/images/logo.png");
}

#[test]
fn visiting_records_and_rewrites() {
    let none = |_: &String| false;
    let mut v = AssetVisitor::new("/p/src/a.tsx", "/p/src", "/p/out");
    v.add_path_mapping("logo.png".to_string(), "/cdn/logo.png".to_string());

    let mut attr = Some("logo.png".to_string());
    v.visit_jsx_attr("src", &mut attr, &none);
    assert_eq!(attr.as_deref(), Some("/cdn/logo.png"));
    assert_eq!(v.assets().len(), 1);
    assert!(matches!(v.assets()[0].reference_type, ReferenceType::JsxAttribute));

    let mut other = Some("logo.png".to_string());
    v.visit_jsx_attr("alt", &mut other, &none);
    assert_eq!(other.as_deref(), Some("logo.png"));
    assert_eq!(v.assets().len(), 1);

    let mut s = "readme".to_string();
    v.visit_str(&mut s, &none);
    assert_eq!(v.assets().len(), 1);

    let mut src = "logo.png".to_string();
    v.visit_import_source(&mut src, &none);
    assert_eq!(src, "/cdn/logo.png");
    assert!(matches!(v.assets()[1].reference_type, ReferenceType::ImportStatement));

    let mut quasi = "clip.MP4".to_string();
    v.visit_tpl_quasi(&mut quasi, &none);
    assert_eq!(v.assets().len(), 3);
    assert!(matches!(v.assets()[2].asset_type, AssetType::Video));
}

#[test]
fn target_path_without_file_name() {
    let asset = AssetReference {
        original_path: "..".to_string(),
        resolved_path: "/p/..".to_string(),
        asset_type: AssetType::Other("no_extension".to_string()),
        reference_type: ReferenceType::StringLiteral,
    };
    assert_eq!(asset.generate_target_path("/out"), "/out/unknown_asset");
}
