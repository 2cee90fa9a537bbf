use etch::html_assets::UsedAssets;

fn strings(v: &[&str]) -> Vec<String> {
    v.iter().map(|s| s.to_string()).collect()
}

#[test]
fn registered_paths_are_kept_once_in_order() {
    let mut used = UsedAssets::new();
    used.register("/a/logo.png".to_string());
    used.register("/a/video.mp4".to_string());
    used.register("/a/logo.png".to_string());
    assert_eq!(used.paths(), &strings(&["/a/logo.png", "/a/video.mp4"]));
    assert!(used.is_used("/a/video.mp4"));
    assert!(!used.is_used("/a/other.png"));
}

#[test]
fn unused_paths_keep_their_order() {
    let mut used = UsedAssets::new();
    used.register("/b.png".to_string());
    let candidates = strings(&["/a.png", "/b.png", "/c.pdf", "/b.png"]);
    assert_eq!(used.unused(&candidates), strings(&["/a.png", "/c.pdf"]));
    assert_eq!(UsedAssets::new().unused(&candidates), candidates);
}
