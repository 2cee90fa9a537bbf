use etch::ids::UuidText;
use etch::tsx::imports::{ImportDecl, ImportSpecifier};
use etch::tsx::xlink::{ImportPlan, XlinkBase64Extractor};
use uuid::Uuid;

#[test]
fn test_extract_base64_data() {
    let extractor = XlinkBase64Extractor::new(None, false);

    let png_uri = "data:image/png;base64,iVBORw0KGgoAAAANSUhEUgAAAAEAAAABCAYAAAAfFcSJAAAADUlEQVR42mNk+M9QDwADhgGAWjR9awAAAABJRU5ErkJggg==";
    let result = extractor.extract_base64_data(png_uri);

    assert!(result.is_some());
    let (mime_type, data, extension) = result.unwrap();
    assert_eq!(mime_type, "image/png");
    assert_eq!(extension, "png");
    assert!(!data.is_empty());
}

#[test]
fn test_generate_variable_name() {
    let uuid = Uuid::new_v4();
    let id = UuidText { hyphenated: uuid.to_string(), simple: uuid.simple().to_string() };
    let var_name = XlinkBase64Extractor::generate_variable_name(&id);
    assert!(var_name.starts_with("base64Image_"));
    assert_eq!(var_name.len(), "base64Image_".len() + 32);
}

#[test]
fn test_non_base64_uri_ignored() {
    let extractor = XlinkBase64Extractor::new(None, false);
    let regular_uri = "https://example.com/image.png";
    let result = extractor.extract_base64_data(regular_uri);
    assert!(result.is_none());
}

#[test]
fn data_uri_parts() {
    let x = XlinkBase64Extractor::new(None, false);
    assert_eq!(
        x.extract_base64_data("data:base64,QUJD"),
        Some(("application/octet-stream".to_string(), "QUJD".to_string(), "bin".to_string()))
    );
    assert_eq!(
        x.extract_base64_data("data:image/jpg;base64,QUJD"),
        Some(("image/jpg".to_string(), "QUJD".to_string(), "jpg".to_string()))
    );
    assert_eq!(x.extract_base64_data("data:image/png,abc"), None);
    assert_eq!(x.extract_base64_data("data:image/png;base64"), None);
}

#[test]
fn extracted_images_become_constants_and_imports() {
    let mut x = XlinkBase64Extractor::new(None, false);
    let r = x.visit_jsx_attr("xlinkHref", "data:image/gif;base64,R0lG").unwrap();
    assert!(r.0.starts_with("base64Image_"));
    assert!(r.1.is_none());
    assert!(x.visit_jsx_attr("fill", "data:image/gif;base64,R0lG").is_none());
    assert!(x.visit_jsx_attr("href", "#anchor").is_none());
    let r2 = x.process_data_uri("data:image/svg+xml;base64,PHN2Zz4=").unwrap();
    assert_eq!(x.images().len(), 2);
    let decls = x.generate_typescript_declarations();
    assert!(decls.starts_with("// Auto-generated base64 image constants\n"));
    assert!(decls.contains(&format!("export const {} = \"data:image/gif;base64,R0lG\";\n", r.0)));
    assert!(decls.contains(&format!("export const {} = \"data:image/svg+xml;base64,PHN2Zz4=\";\n", r2.0)));
    match x.import_plan() {
        Some(ImportPlan::Named(names, path)) => {
            assert_eq!(path, "./base64_images");
            let mut expected = vec![r.0.clone(), r2.0.clone()];
            expected.sort();
            assert_eq!(names, expected);
        }
        _ => panic!("expected named imports"),
    }
}

#[test]
fn file_imports_are_sorted_and_decoded() {
    let mut x = XlinkBase64Extractor::new_with_file_imports(Some("/out".to_string()), "@/img/".to_string());
    let a = x.process_data_uri("data:image/png;base64,QUJD").unwrap();
    let file = a.1.unwrap();
    assert_eq!(file.contents.unwrap(), b"ABC".to_vec());
    assert!(file.path.starts_with("/out/") && file.path.ends_with(".png"));
    let b = x.process_data_uri("data:image/png;base64,!!!").unwrap();
    assert!(b.1.unwrap().contents.unwrap_err().starts_with("Failed to decode base64: "));
    match x.import_plan() {
        Some(ImportPlan::Files(items)) => {
            assert_eq!(items.len(), 2);
            assert!(items[0].0 < items[1].0);
            for (name, path) in items {
                let digits = name.trim_start_matches("base64Image_");
                assert_eq!(path, format!("@/img/{}.png", digits));
            }
        }
        _ => panic!("expected file imports"),
    }
    assert!(XlinkBase64Extractor::new(None, true).import_plan().is_none());
}

#[test]
fn import_statements_go_before_the_module_imports() {
    let own = ImportDecl { specifiers: vec![ImportSpecifier::Default("React".to_string())], src: "react".to_string() };
    let mut imports = vec![own.clone()];
    let x = XlinkBase64Extractor::new(None, false);
    x.add_import_statement(&mut imports);
    assert_eq!(imports.len(), 1);

    let mut x = XlinkBase64Extractor::new(None, false);
    let a = x.process_data_uri("data:image/png;base64,QUJD").unwrap();
    x.add_import_statement(&mut imports);
    assert_eq!(imports.len(), 2);
    assert_eq!(imports[0].src, "./base64_images");
    assert!(matches!(&imports[0].specifiers[0], ImportSpecifier::Named(n) if *n == a.0));
    assert_eq!(imports[1].src, "react");

    let mut f = XlinkBase64Extractor::new_with_file_imports(None, "@/img/".to_string());
    let b = f.process_data_uri("data:image/gif;base64,R0lG").unwrap();
    let mut imports2 = vec![own];
    f.add_import_statement(&mut imports2);
    assert_eq!(imports2.len(), 2);
    assert!(matches!(&imports2[0].specifiers[0], ImportSpecifier::Default(n) if *n == b.0));
    assert!(imports2[0].src.starts_with("@/img/") && imports2[0].src.ends_with(".gif"));
}
