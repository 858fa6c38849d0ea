use mdquery_rs::MDItem;
use mdquery_rs::MDItemKey;

#[test]
fn test_key_as_str() {
    assert_eq!(MDItemKey::DisplayName.as_str(), "kMDItemDisplayName");
    assert_eq!(MDItemKey::FSName.as_str(), "kMDItemFSName");
    assert_eq!(
        MDItemKey::ModificationDate.as_str(),
        "kMDItemContentModificationDate"
    );
    assert_eq!(
        MDItemKey::CreationDate.as_str(),
        "kMDItemContentCreationDate"
    );
    assert_eq!(MDItemKey::LastUsedDate.as_str(), "kMDItemLastUsedDate");
    assert_eq!(MDItemKey::Size.as_str(), "kMDItemFSSize");
    assert_eq!(MDItemKey::ContentType.as_str(), "kMDItemContentType");
    assert_eq!(MDItemKey::Path.as_str(), "kMDItemPath");
}

#[test]
fn test_key_is_time() {
    assert!(MDItemKey::ModificationDate.is_time());
    assert!(MDItemKey::CreationDate.is_time());
    assert!(MDItemKey::LastUsedDate.is_time());
    assert!(!MDItemKey::DisplayName.is_time());
    assert!(!MDItemKey::FSName.is_time());
    assert!(!MDItemKey::Size.is_time());
    assert!(!MDItemKey::ContentType.is_time());
    assert!(!MDItemKey::Path.is_time());
}

fn app_item() -> MDItem {
    MDItem {
        path: Some("/Applications/Safari.app".into()),
        display_name: Some("Safari".into()),
        content_type: Some("com.apple.application-bundle".into()),
        content_type_tree: Some(vec![
            "com.apple.application-bundle".to_string(),
            "com.apple.application".to_string(),
            "public.executable".to_string(),
        ]),
    }
}

#[test]
fn test_item_accessors() {
    let item = app_item();
    assert_eq!(item.path(), Some("/Applications/Safari.app".to_string()));
    assert_eq!(item.display_name(), Some("Safari".to_string()));
    assert_eq!(
        item.content_type(),
        Some("com.apple.application-bundle".to_string())
    );
    assert_eq!(
        item.content_type_tree(),
        Some(vec![
            "com.apple.application-bundle".to_string(),
            "com.apple.application".to_string(),
            "public.executable".to_string(),
        ])
    );
}

#[test]
fn test_item_missing_attributes() {
    let item = MDItem {
        path: None,
        display_name: None,
        content_type: None,
        content_type_tree: None,
    };
    assert_eq!(item.path(), None);
    assert_eq!(item.display_name(), None);
    assert_eq!(item.content_type(), None);
    assert_eq!(item.content_type_tree(), None);
    assert!(!item.is_dir());
    assert!(!item.is_image());
    assert!(!item.is_video());
    assert!(!item.is_audio());
    assert!(!item.is_app());
}

#[test]
fn test_item_is_app() {
    let item = app_item();
    assert!(item.is_app());
    assert!(!item.is_dir());
    let plain = MDItem {
        content_type: Some("public.folder".into()),
        ..app_item()
    };
    assert!(!plain.is_app());
}

#[test]
fn test_item_classification() {
    let folder = MDItem {
        path: Some("/tmp".into()),
        display_name: Some("tmp".into()),
        content_type: Some("public.folder".into()),
        content_type_tree: Some(vec![
            "public.folder".to_string(),
            "public.directory".to_string(),
            "public.item".to_string(),
        ]),
    };
    assert!(folder.is_dir());
    assert!(!folder.is_image());
    assert!(!folder.is_video());
    assert!(!folder.is_audio());

    let movie = MDItem {
        path: Some("/a/clip.mov".into()),
        display_name: Some("clip".into()),
        content_type: Some("com.apple.quicktime-movie".into()),
        content_type_tree: Some(vec![
            "com.apple.quicktime-movie".to_string(),
            "public.movie".to_string(),
            "public.audiovisual-content".to_string(),
        ]),
    };
    assert!(movie.is_video());
    assert!(!movie.is_dir());

    let song = MDItem {
        content_type_tree: Some(vec!["public.audio".to_string()]),
        ..movie
    };
    assert!(song.is_audio());
    assert!(!song.is_video());

    let picture = MDItem {
        path: None,
        display_name: None,
        content_type: Some("public.png".into()),
        content_type_tree: Some(vec![
            "public.png".to_string(),
            "public.image".to_string(),
        ]),
    };
    assert!(picture.is_image());
    assert!(!picture.is_audio());
}
