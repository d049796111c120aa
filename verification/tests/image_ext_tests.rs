use rust_axum_image_bbs::config::AppConfig;
use rust_axum_image_bbs::image_ext::ImageExt;

#[test]
fn as_str_gives_fixed_extensions() {
    assert_eq!(ImageExt::Jpg.as_str(), "jpg");
    assert_eq!(ImageExt::Gif.as_str(), "gif");
    assert_eq!(ImageExt::Png.as_str(), "png");
}

#[test]
fn from_mime_maps_the_three_image_types() {
    assert_eq!(ImageExt::from_mime("image/jpeg"), Some(ImageExt::Jpg));
    assert_eq!(ImageExt::from_mime("image/gif"), Some(ImageExt::Gif));
    assert_eq!(ImageExt::from_mime("image/png"), Some(ImageExt::Png));
}

#[test]
fn from_mime_refuses_other_types() {
    assert_eq!(ImageExt::from_mime("image/bmp"), None);
    assert_eq!(ImageExt::from_mime("image/webp"), None);
    assert_eq!(ImageExt::from_mime("text/plain"), None);
    assert_eq!(ImageExt::from_mime(""), None);
    assert_eq!(ImageExt::from_mime("image/jpg"), None);
    assert_eq!(ImageExt::from_mime("IMAGE/PNG"), None);
    assert_eq!(ImageExt::from_mime("image/png "), None);
}

#[test]
fn default_allowed_mime_are_exactly_the_kinds() {
    let config = AppConfig::from_env_or_default();
    for mime in config.allowed_mime.iter() {
        assert!(ImageExt::from_mime(mime).is_some());
    }
    assert_eq!(config.allowed_mime.len(), 3);
}
