use rust_axum_image_bbs::config::AppConfig;
use rust_axum_image_bbs::error::AppError;
use rust_axum_image_bbs::form::{validate, validate_with_mime, FormError, PostFormInput};
use rust_axum_image_bbs::image_ext::ImageExt;

const PNG: [u8; 12] = [0x89, 0x50, 0x4E, 0x47, 0x0D, 0x0A, 0x1A, 0x0A, 0, 0, 0, 0x0D];
const JPEG: [u8; 8] = [0xFF, 0xD8, 0xFF, 0xE0, 0x00, 0x10, 0x4A, 0x46];
const GIF: [u8; 8] = [0x47, 0x49, 0x46, 0x38, 0x39, 0x61, 0x01, 0x00];
const BMP: [u8; 8] = [0x42, 0x4D, 0x3A, 0x00, 0x00, 0x00, 0x00, 0x00];

fn input(title: &str, text: &str, image: Option<Vec<u8>>) -> PostFormInput {
    PostFormInput {
        title: title.to_string(),
        text: text.to_string(),
        image_bytes: image,
        image_filename: None,
        delete_image: false,
    }
}

fn messages(r: Result<rust_axum_image_bbs::form::ValidatedPostForm, AppError>) -> Vec<String> {
    match r {
        Err(AppError::Validation(msgs)) => msgs,
        other => panic!("expected a validation error, got {:?}", other),
    }
}

#[test]
fn accepts_title_and_empty_text_without_image() {
    let config = AppConfig::from_env_or_default();
    let form = validate(&input("hello", "", None), &config).unwrap();
    assert_eq!(form.title, "hello");
    assert_eq!(form.text, "");
    assert!(form.image.is_none());
    assert!(!form.delete_image);
}

#[test]
fn keeps_the_delete_image_flag() {
    let config = AppConfig::from_env_or_default();
    let mut i = input("t", "b", None);
    i.delete_image = true;
    let form = validate(&i, &config).unwrap();
    assert!(form.delete_image);
}

#[test]
fn empty_title_is_refused() {
    let config = AppConfig::from_env_or_default();
    let msgs = messages(validate(&input("", "body", None), &config));
    assert_eq!(msgs, vec![FormError::TitleEmpty.message()]);
    assert_eq!(msgs[0], "タイトルを入力してください");
}

#[test]
fn title_length_counts_characters_not_bytes() {
    let config = AppConfig::from_env_or_default();
    let fifty: String = "あ".repeat(50);
    assert!(validate(&input(&fifty, "", None), &config).is_ok());
    let fifty_one: String = "あ".repeat(51);
    let msgs = messages(validate(&input(&fifty_one, "", None), &config));
    assert_eq!(msgs, vec!["タイトルは50文字以内で入力してください".to_string()]);
}

#[test]
fn text_up_to_500_characters() {
    let config = AppConfig::from_env_or_default();
    let ok: String = "本".repeat(500);
    assert!(validate(&input("t", &ok, None), &config).is_ok());
    let long: String = "x".repeat(501);
    let msgs = messages(validate(&input("t", &long, None), &config));
    assert_eq!(msgs, vec!["本文は500文字以内で入力してください".to_string()]);
}

#[test]
fn all_broken_rules_are_reported_in_order() {
    let config = AppConfig::from_env_or_default();
    let long: String = "x".repeat(501);
    let msgs = messages(validate(&input("", &long, Some(BMP.to_vec())), &config));
    assert_eq!(
        msgs,
        vec![
            FormError::TitleEmpty.message(),
            FormError::TextTooLong.message(),
            FormError::ImageTypeNotAllowed.message(),
        ]
    );
}

#[test]
fn png_jpeg_and_gif_content_is_accepted() {
    let config = AppConfig::from_env_or_default();
    let form = validate(&input("t", "", Some(PNG.to_vec())), &config).unwrap();
    let img = form.image.unwrap();
    assert_eq!(img.extension, ImageExt::Png);
    assert_eq!(img.bytes, PNG.to_vec());

    let form = validate(&input("t", "", Some(JPEG.to_vec())), &config).unwrap();
    assert_eq!(form.image.unwrap().extension, ImageExt::Jpg);

    let form = validate(&input("t", "", Some(GIF.to_vec())), &config).unwrap();
    assert_eq!(form.image.unwrap().extension, ImageExt::Gif);
}

#[test]
fn other_content_is_refused_whatever_the_file_name() {
    let config = AppConfig::from_env_or_default();
    let mut i = input("t", "", Some(BMP.to_vec()));
    i.image_filename = Some("photo.png".to_string());
    let msgs = messages(validate(&i, &config));
    assert_eq!(msgs, vec!["画像は jpg / gif / png のみ投稿できます".to_string()]);

    let msgs = messages(validate(&input("t", "", Some(b"hello".to_vec())), &config));
    assert_eq!(msgs, vec![FormError::ImageTypeNotAllowed.message()]);

    let msgs = messages(validate(&input("t", "", Some(Vec::new())), &config));
    assert_eq!(msgs, vec![FormError::ImageTypeNotAllowed.message()]);
}

#[test]
fn image_size_limit_is_inclusive() {
    let config = AppConfig::from_env_or_default();
    let mut at_limit = vec![0u8; 5 * 1024 * 1024];
    at_limit[..PNG.len()].copy_from_slice(&PNG);
    assert!(validate(&input("t", "", Some(at_limit.clone())), &config).is_ok());
    at_limit.push(0);
    let msgs = messages(validate(&input("t", "", Some(at_limit)), &config));
    assert_eq!(msgs, vec!["画像のサイズが上限を超えています".to_string()]);
}

#[test]
fn mime_must_be_in_the_configured_list() {
    let allowed: &'static [&'static str] = &["image/png"];
    let config = AppConfig { page_size: 20, max_image_bytes: 100, allowed_mime: allowed };
    assert!(validate(&input("t", "", Some(PNG.to_vec())), &config).is_ok());
    let msgs = messages(validate(&input("t", "", Some(JPEG.to_vec())), &config));
    assert_eq!(msgs, vec![FormError::ImageTypeNotAllowed.message()]);
}

#[test]
fn allowed_mime_without_a_kind_is_refused() {
    let allowed: &'static [&'static str] = &["image/webp", "image/png"];
    let config = AppConfig { page_size: 20, max_image_bytes: 100, allowed_mime: allowed };
    let i = input("t", "", Some(vec![1, 2, 3]));
    let msgs = messages(validate_with_mime(&i, &config, Some("image/webp")));
    assert_eq!(msgs, vec![FormError::ImageTypeNotAllowed.message()]);
    let form = validate_with_mime(&i, &config, Some("image/png")).unwrap();
    assert_eq!(form.image.unwrap().extension, ImageExt::Png);
}

#[test]
fn validate_with_mime_uses_the_given_type() {
    let config = AppConfig::from_env_or_default();
    let i = input("t", "", Some(vec![9, 9, 9]));
    let form = validate_with_mime(&i, &config, Some("image/gif")).unwrap();
    assert_eq!(form.image.unwrap().extension, ImageExt::Gif);
    let msgs = messages(validate_with_mime(&i, &config, None));
    assert_eq!(msgs, vec![FormError::ImageTypeNotAllowed.message()]);
    assert!(validate_with_mime(&input("t", "", None), &config, Some("text/plain")).is_ok());
}

#[test]
fn too_large_image_reports_only_its_size() {
    let allowed: &'static [&'static str] = &["image/png"];
    let config = AppConfig { page_size: 20, max_image_bytes: 4, allowed_mime: allowed };
    let msgs = messages(validate(&input("t", "", Some(BMP.to_vec())), &config));
    assert_eq!(msgs, vec![FormError::ImageTooLarge.message()]);
}

fn skippable_zstd_frames(bytes: usize) -> Vec<u8> {
    let frame = [0x50u8, 0x2A, 0x4D, 0x18, 0, 0, 0, 0];
    frame.iter().copied().cycle().take(bytes).collect()
}

#[test]
fn long_run_of_zstd_skippable_frames_is_refused_without_overflow() {
    let config = AppConfig::from_env_or_default();
    let msgs = messages(validate(&input("t", "", Some(skippable_zstd_frames(4 * 1024 * 1024))), &config));
    assert_eq!(msgs, vec![FormError::ImageTypeNotAllowed.message()]);
    let msgs = messages(validate(&input("t", "", Some(skippable_zstd_frames(6 * 1024 * 1024))), &config));
    assert_eq!(msgs, vec![FormError::ImageTooLarge.message()]);
}

#[test]
fn large_png_is_judged_by_its_start() {
    let config = AppConfig::from_env_or_default();
    let mut big = vec![0u8; 1024 * 1024];
    big[..PNG.len()].copy_from_slice(&PNG);
    let form = validate(&input("t", "", Some(big.clone())), &config).unwrap();
    let img = form.image.unwrap();
    assert_eq!(img.extension, ImageExt::Png);
    assert_eq!(img.bytes, big);
}
