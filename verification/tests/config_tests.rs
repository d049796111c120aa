use rust_axum_image_bbs::config::AppConfig;

#[test]
fn default_config_matches_task_limits() {
    let config = AppConfig::from_env_or_default();

    assert_eq!(config.page_size, 20);
    assert_eq!(config.max_image_bytes, 5 * 1024 * 1024);
    assert_eq!(
        config.allowed_mime,
        ["image/jpeg", "image/gif", "image/png"]
    );
}
