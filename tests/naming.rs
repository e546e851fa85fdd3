use fastresize::error::FastResizeError;
use fastresize::format::ImageFormat;
use fastresize::naming::{FolderOrganization, NamingConfig};

#[test]
fn test_naming_config() {
    let naming = NamingConfig {
        prefix: Some("web_".to_string()),
        suffix: Some("_resized".to_string()),
        keep_original: false,
        folder_organization: FolderOrganization::Flat,
    };

    let filename = naming.generate_filename("photo.jpg", Some(ImageFormat::WebP));
    assert_eq!(filename, "web_photo_resized.webp");
}

#[test]
fn test_filename_generation() {
    let naming = NamingConfig::default();

    let filename = naming.generate_filename("test.jpg", Some(ImageFormat::WebP));
    assert_eq!(filename, "test_resized.webp");

    let original_naming = NamingConfig { keep_original: true, ..Default::default() };
    let filename = original_naming.generate_filename("test.jpg", Some(ImageFormat::WebP));
    assert_eq!(filename, "test.jpg");
}

#[test]
fn filename_edge_cases() {
    let naming = NamingConfig::default();
    assert_eq!(naming.generate_filename("archive.tar.gz", None), "archive.tar_resized.gz");
    assert_eq!(naming.generate_filename("README", None), "README_resized");
    assert_eq!(naming.generate_filename("README", Some(ImageFormat::Png)), "README_resized.png");
    assert_eq!(naming.generate_filename("trailing.", None), "trailing_resized");
    let bare = NamingConfig { suffix: None, ..Default::default() };
    assert_eq!(bare.generate_filename("a.b", None), "a.b");
}

#[test]
fn naming_validation() {
    assert!(NamingConfig::default().validate().is_ok());
    let bad_prefix = NamingConfig { prefix: Some("a/b".to_string()), ..Default::default() };
    assert_eq!(
        bad_prefix.validate(),
        Err(FastResizeError::InvalidParameters { message: "Prefix contains invalid filename characters".to_string() })
    );
    let bad_suffix = NamingConfig { suffix: Some("x?".to_string()), ..Default::default() };
    assert_eq!(
        bad_suffix.validate(),
        Err(FastResizeError::InvalidParameters { message: "Suffix contains invalid filename characters".to_string() })
    );
}
