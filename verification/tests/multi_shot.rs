use safer_ring::advanced::MultiShotConfig;

#[test]
fn multi_shot_test_default_config() {
    let config = MultiShotConfig::default();

    assert!(config.max_completions.is_none());
    assert!(!config.continue_on_error);
    assert!(config.buffer_group_id.is_none());
}

#[test]
fn multi_shot_test_builder_pattern() {
    let config = MultiShotConfig::new()
        .with_max_completions(50)
        .with_continue_on_error()
        .with_buffer_group(2);

    assert_eq!(config.max_completions, Some(50));
    assert!(config.continue_on_error);
    assert_eq!(config.buffer_group_id, Some(2));
}
