use etch::nextjs::{
    directory_entry, file_entry, AppRouterDirectoryKind, AppRouterEntry, AppRouterError, AppRouterFileKind,
    AssetFolderKind, Cli,
};

#[test]
fn directory_kinds() {
    assert_eq!(AppRouterDirectoryKind::try_from("blog"), Ok(AppRouterDirectoryKind::StaticRoute));
    assert_eq!(AppRouterDirectoryKind::try_from("[slug]"), Ok(AppRouterDirectoryKind::DynamicRouteWithParams));
    assert_eq!(AppRouterDirectoryKind::try_from("(marketing)"), Ok(AppRouterDirectoryKind::RouteGroup));
    assert_eq!(AppRouterDirectoryKind::try_from("_private"), Ok(AppRouterDirectoryKind::PrivateRoute));
    assert_eq!(AppRouterDirectoryKind::try_from("@modal"), Ok(AppRouterDirectoryKind::NamedSlot));
    assert_eq!(
        AppRouterDirectoryKind::try_from("Image"),
        Ok(AppRouterDirectoryKind::AssetFolder { asset_kind: AssetFolderKind::Image })
    );
    assert_eq!(AppRouterDirectoryKind::try_from("a/b"), Err(AppRouterError::UnknownDirectoryType));
}

#[test]
fn file_kinds_and_asset_folders() {
    assert_eq!(AppRouterFileKind::try_from("page"), Ok(AppRouterFileKind::Page));
    assert_eq!(AppRouterFileKind::try_from("not-found"), Ok(AppRouterFileKind::NotFound));
    assert_eq!(AppRouterFileKind::try_from("anything"), Ok(AppRouterFileKind::Other));
    assert!(AssetFolderKind::is_asset_folder_str("Font"));
    assert!(!AssetFolderKind::is_asset_folder_str("font"));
    assert_eq!(AssetFolderKind::from_name("x"), Err(AppRouterError::AssetFolderKindConversionError));
    assert_eq!(AppRouterError::UnknownFileType.message(), "Unknown file type");
}

#[test]
fn entries() {
    let _cli = Cli::new();
    match file_entry("layout", "layout.tsx".to_string(), 5u8) {
        AppRouterEntry::File(f) => {
            assert_eq!(f.file_kind, AppRouterFileKind::Layout);
            assert_eq!(f.path_segment, "layout.tsx");
            assert_eq!(f.data, 5);
        }
        _ => panic!("expected a file"),
    }
    let dir = directory_entry::<u8>("[id]", "[id]".to_string(), vec![]).unwrap();
    assert!(matches!(dir, AppRouterEntry::Directory(d) if d.directory_kind == AppRouterDirectoryKind::DynamicRouteWithParams));
    assert!(directory_entry::<u8>("x/y", "x".to_string(), vec![]).is_err());
}
