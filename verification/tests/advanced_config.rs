use safer_ring::advanced::AdvancedConfig;

#[test]
fn test_default_config() {
    let config = AdvancedConfig::default();

    assert!(!config.buffer_selection);
    assert!(!config.multi_shot);
    assert!(!config.provided_buffers);
    assert!(!config.fast_poll);
    assert!(!config.sq_poll);
    assert!(config.sq_thread_cpu.is_none());
    assert!(!config.coop_taskrun);
    assert!(!config.defer_taskrun);

    assert!(!config.advanced_task_work);
    assert!(!config.defer_async_work);

    assert!(!config.send_zc_reporting);
    assert!(!config.multishot_completion_batching);
    assert!(!config.epoll_uring_wake);

    assert!(!config.registered_ring_fd);

    assert!(!config.multishot_timeouts);

    assert!(!config.user_allocated_ring_memory);

    assert!(!config.async_cancel_op);
    assert!(!config.socket_command_support);
    assert!(!config.direct_io_optimizations);

    assert!(!config.msg_ring_speedup);
    assert!(!config.native_bind_listen);

    assert!(!config.improved_huge_pages);
    assert!(!config.async_discard);
    assert!(!config.minimum_timeout_waits);
    assert!(!config.absolute_timeouts);
    assert!(!config.incremental_buffer_consumption);
    assert!(!config.registered_buffer_cloning);
}

#[test]
fn test_new_config() {
    let config = AdvancedConfig::new();
    assert_eq!(
        format!("{config:?}"),
        format!("{:?}", AdvancedConfig::default())
    );
}

#[test]
fn test_stable_config() {
    let config = AdvancedConfig::stable();

    assert!(config.buffer_selection);
    assert!(config.fast_poll);
    assert!(config.provided_buffers);
    assert!(config.coop_taskrun);
    assert!(config.defer_taskrun);

    assert!(!config.sq_poll);
    assert!(!config.defer_async_work);
    assert!(!config.user_allocated_ring_memory);
}

#[test]
fn test_performance_config() {
    let config = AdvancedConfig::performance();

    assert!(config.buffer_selection);
    assert!(config.fast_poll);

    assert!(config.multi_shot);
    assert!(config.advanced_task_work);
    assert!(config.send_zc_reporting);
    assert!(config.multishot_completion_batching);
}

#[test]
fn test_development_config() {
    let config = AdvancedConfig::development();

    assert!(config.buffer_selection);
    assert!(config.multi_shot);
    assert!(config.provided_buffers);

    assert!(!config.sq_poll);
    assert!(!config.defer_async_work);
}

#[test]
fn config_test_builder_pattern() {
    let config = AdvancedConfig::new()
        .with_buffer_selection(true)
        .with_multi_shot(true)
        .with_fast_poll(true);

    assert!(config.buffer_selection);
    assert!(config.multi_shot);
    assert!(config.fast_poll);
    assert!(!config.provided_buffers);
}

#[test]
fn test_sq_poll_configuration() {
    let config = AdvancedConfig::new().with_sq_poll(true, Some(2));
    assert!(config.sq_poll);
    assert_eq!(config.sq_thread_cpu, Some(2));

    let config = AdvancedConfig::new().with_sq_poll(false, Some(2));
    assert!(!config.sq_poll);
    assert_eq!(config.sq_thread_cpu, None);
}

#[test]
fn test_enabled_features() {
    let config = AdvancedConfig::stable();
    let features = config.enabled_features();

    assert!(features.contains(&"buffer_selection"));
    assert!(features.contains(&"fast_poll"));
    assert!(!features.is_empty());

    let default_config = AdvancedConfig::default();
    assert!(default_config.enabled_features().is_empty());
}

#[test]
fn test_feature_count() {
    let default_config = AdvancedConfig::default();
    assert_eq!(default_config.feature_count(), 0);

    let stable_config = AdvancedConfig::stable();
    assert!(stable_config.feature_count() > 0);

    let performance_config = AdvancedConfig::performance();
    assert!(performance_config.feature_count() >= stable_config.feature_count());
}

#[test]
fn test_validation() {
    let good_config = AdvancedConfig::stable();
    let warnings = good_config.validate();
    assert!(warnings.len() <= 1);

    let problematic_config = AdvancedConfig::new()
        .with_sq_poll(true, None)
        .with_defer_taskrun(true);
    let warnings = problematic_config.validate();
    assert!(!warnings.is_empty());
}

#[test]
fn test_resource_intensive_validation() {
    let intensive_config = AdvancedConfig {
        sq_poll: true,
        defer_async_work: true,
        user_allocated_ring_memory: true,
        sq_thread_cpu: Some(0),
        advanced_task_work: true,
        ..AdvancedConfig::default()
    };

    let warnings = intensive_config.validate();
    assert!(warnings.iter().any(|w| w.contains("resource-intensive")));
}

#[test]
fn stable_config_lists_exactly_its_features_in_order() {
    let features = AdvancedConfig::stable().enabled_features();
    assert_eq!(
        features,
        vec!["buffer_selection", "provided_buffers", "fast_poll", "coop_taskrun", "defer_taskrun"]
    );
    assert_eq!(AdvancedConfig::stable().feature_count(), 5);
    assert_eq!(AdvancedConfig::performance().feature_count(), 11);
}

#[test]
fn validation_warnings_come_in_order() {
    let config = AdvancedConfig::new()
        .with_sq_poll(true, None)
        .with_defer_taskrun(true);
    let warnings = config.validate();
    assert_eq!(
        warnings,
        vec![
            "sq_poll and defer_taskrun may conflict on some kernels".to_string(),
            "sq_poll without CPU affinity may cause performance issues".to_string(),
        ]
    );
}
