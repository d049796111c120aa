use rust_axum_image_bbs::config::AppConfig;
use rust_axum_image_bbs::form::{validate, PostFormInput};
use rust_axum_image_bbs::image_ext::ImageExt;
use rust_axum_image_bbs::storage::{
    image_change, image_column_update, image_file_candidates, image_file_name,
    image_relative_path, ImageChange,
};

#[test]
fn file_name_is_id_dot_extension() {
    assert_eq!(image_file_name(5, ImageExt::Jpg), "5.jpg");
    assert_eq!(image_file_name(0, ImageExt::Png), "0.png");
    assert_eq!(image_file_name(1234567890, ImageExt::Gif), "1234567890.gif");
    assert_eq!(image_file_name(-7, ImageExt::Gif), "-7.gif");
    assert_eq!(image_file_name(i64::MAX, ImageExt::Png), format!("{}.png", i64::MAX));
    assert_eq!(image_file_name(i64::MIN, ImageExt::Jpg), format!("{}.jpg", i64::MIN));
}

#[test]
fn relative_path_is_under_uploads() {
    assert_eq!(image_relative_path(5, ImageExt::Png), "uploads/5.png");
    assert_eq!(image_relative_path(42, ImageExt::Jpg), "uploads/42.jpg");
}

#[test]
fn candidates_cover_every_kind() {
    assert_eq!(
        image_file_candidates(5),
        vec!["5.jpg".to_string(), "5.gif".to_string(), "5.png".to_string()]
    );
}

#[test]
fn distinct_posts_and_kinds_get_distinct_names() {
    let kinds = [ImageExt::Jpg, ImageExt::Gif, ImageExt::Png];
    let ids = [0i64, 1, 10, 11, -1, -10, 100, 101];
    let mut names = Vec::new();
    for id in ids {
        for k in kinds {
            let n = image_file_name(id, k);
            assert!(!n.contains('/'));
            assert!(!n.starts_with('.'));
            names.push(n);
        }
    }
    let mut sorted = names.clone();
    sorted.sort();
    sorted.dedup();
    assert_eq!(sorted.len(), names.len());
}

fn form(image: Option<Vec<u8>>, delete_image: bool) -> rust_axum_image_bbs::form::ValidatedPostForm {
    let input = PostFormInput {
        title: "t".to_string(),
        text: String::new(),
        image_bytes: image,
        image_filename: None,
        delete_image,
    };
    validate(&input, &AppConfig::from_env_or_default()).unwrap()
}

#[test]
fn new_image_wins_over_removal() {
    let png = vec![0x89, 0x50, 0x4E, 0x47, 0x0D, 0x0A, 0x1A, 0x0A];
    assert_eq!(image_change(&form(Some(png.clone()), true)), ImageChange::Replace(ImageExt::Png));
    assert_eq!(image_change(&form(Some(png), false)), ImageChange::Replace(ImageExt::Png));
    assert_eq!(image_change(&form(None, true)), ImageChange::Remove);
    assert_eq!(image_change(&form(None, false)), ImageChange::Keep);
}

#[test]
fn column_update_for_each_change() {
    assert_eq!(image_column_update(3, ImageChange::Keep), None);
    assert_eq!(image_column_update(3, ImageChange::Remove), Some(None));
    assert_eq!(
        image_column_update(3, ImageChange::Replace(ImageExt::Gif)),
        Some(Some("uploads/3.gif".to_string()))
    );
}
