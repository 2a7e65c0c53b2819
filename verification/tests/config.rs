use safer_ring::advanced::FeatureDetector;
use safer_ring::config::{memory_info_from, BufferConfig, ConfigBuilder, LoggingConfig, MemoryInfo, RingConfig, SaferRingConfig};
use safer_ring::error::{IoErrorKind, SaferRingError};
use safer_ring::logging::LogLevel;

#[test]
fn config_test_default_config() {
    let config = SaferRingConfig::default();
    assert!(config.validate().is_ok());
}

#[test]
fn test_low_latency_config() {
    let config = SaferRingConfig::low_latency();
    assert!(config.validate().is_ok());
    assert_eq!(config.ring.sq_entries, 32);
    assert!(config.ring.sq_poll);
    assert!(!config.performance.batch_submission);
}

#[test]
fn test_high_throughput_config() {
    let config = SaferRingConfig::high_throughput();
    assert!(config.validate().is_ok());
    assert_eq!(config.ring.sq_entries, 1024);
    assert!(config.performance.batch_submission);
    assert_eq!(config.performance.max_batch_size, 256);
}

#[test]
fn config_test_development_config() {
    let config = SaferRingConfig::development();
    assert!(config.validate().is_ok());
    assert!(config.logging.enabled);
    assert_eq!(config.logging.level, LogLevel::Debug);
    assert!(config.logging.tracing);
}

#[test]
fn test_production_config() {
    let config = SaferRingConfig::production();
    assert!(config.validate().is_ok());
    assert!(config.logging.enabled);
    assert_eq!(config.logging.level, LogLevel::Warn);
    assert!(config.logging.json_format);
}

#[test]
fn test_config_validation() {
    let mut config = SaferRingConfig::default();

    assert!(config.validate().is_ok());

    config.ring.sq_entries = 0;
    assert!(config.validate().is_err());

    config.ring.sq_entries = 128;
    config.buffer.default_size = 0;
    assert!(config.validate().is_err());
}

#[test]
fn test_config_builder() {
    let config = ConfigBuilder::new()
        .ring(RingConfig {
            sq_entries: 64,
            ..Default::default()
        })
        .buffer(BufferConfig {
            default_size: 8192,
            ..Default::default()
        })
        .build()
        .unwrap();

    assert_eq!(config.ring.sq_entries, 64);
    assert_eq!(config.buffer.default_size, 8192);
}

#[test]
fn test_auto_detect_config() {
    if let Ok(config) = SaferRingConfig::auto_detect("6.8.0", Some("MemTotal:       16318412 kB\nMemFree:         1200000 kB\nMemAvailable:    8000000 kB\n")) {
        assert!(config.validate().is_ok());
        assert!(config.ring.sq_entries > 0);
    }
}

fn message_of(result: Result<(), SaferRingError>) -> String {
    match result {
        Err(SaferRingError::Io(e)) => {
            assert_eq!(e.kind, IoErrorKind::InvalidInput);
            e.message
        }
        _ => panic!("expected an I/O error"),
    }
}

#[test]
fn validation_reports_the_first_problem() {
    let mut config = SaferRingConfig::default();
    config.ring.sq_entries = 5000;
    assert_eq!(message_of(config.validate()), "SQ entries should not exceed 4096");

    let mut config = SaferRingConfig::default();
    config.buffer.pool_size = 0;
    assert_eq!(
        message_of(config.validate()),
        "Pool size must be greater than 0 when pooling is enabled"
    );
    config.buffer.enable_pooling = false;
    assert!(config.validate().is_ok());

    let mut config = SaferRingConfig::default();
    config.performance.max_batch_size = 0;
    assert_eq!(
        message_of(config.validate()),
        "Max batch size must be greater than 0 when batch submission is enabled"
    );

    let mut config = SaferRingConfig::default();
    config.error_handling.auto_retry = true;
    config.error_handling.max_retries = 0;
    assert_eq!(
        message_of(config.validate()),
        "Max retries must be greater than 0 when auto retry is enabled"
    );

    let mut config = SaferRingConfig::default();
    config.ring.sq_entries = 0;
    config.buffer.default_size = 0;
    assert_eq!(message_of(config.validate()), "SQ entries must be greater than 0");
}

#[test]
fn auto_detect_scales_with_cpus_and_memory() {
    let detector = FeatureDetector::new("6.12.1").unwrap();
    let small = SaferRingConfig::auto_detect_with(&detector, 2, Some(256 * 1024 * 1024));
    assert_eq!(small.ring.sq_entries, 64);
    assert!(!small.buffer.numa_aware);
    assert_eq!(small.buffer.pool_size, 64);
    assert_eq!(small.buffer.max_pooled_size, 1024 * 1024);

    let medium = SaferRingConfig::auto_detect_with(&detector, 17, Some(600 * 1024 * 1024));
    assert_eq!(medium.ring.sq_entries, 544);
    assert!(medium.buffer.numa_aware);
    assert_eq!(medium.buffer.pool_size, 128);
    assert_eq!(medium.buffer.max_pooled_size, 8 * 1024 * 1024);

    let large = SaferRingConfig::auto_detect_with(&detector, 64, Some(4 * 1024 * 1024 * 1024));
    assert_eq!(large.ring.sq_entries, 1024);
    assert_eq!(large.buffer.pool_size, 256);
    assert_eq!(large.buffer.max_pooled_size, 16 * 1024 * 1024);
    assert!(large.advanced.registered_buffer_cloning);
    assert!(!large.advanced.sq_poll);

    let unknown = SaferRingConfig::auto_detect_with(&detector, 1, None);
    assert_eq!(unknown.buffer.pool_size, 64);
    assert_eq!(unknown.ring.sq_entries, 32);
}

#[test]
fn builder_refuses_invalid_configuration() {
    let result = ConfigBuilder::new()
        .ring(RingConfig {
            sq_entries: 0,
            ..Default::default()
        })
        .build();
    assert!(result.is_err());
}

#[test]
fn meminfo_is_read_in_bytes() {
    let text = "MemTotal:       16318412 kB\r\nMemFree:          1200000 kB\nMemAvailable:    8000000 kB\nMemAvailable: junk kB\n";
    assert_eq!(
        memory_info_from(text),
        MemoryInfo { total: 16318412 * 1024, available: 0 }
    );
    assert_eq!(memory_info_from(""), MemoryInfo { total: 0, available: 0 });
    assert_eq!(
        memory_info_from("MemAvailable:\t2048 kB"),
        MemoryInfo { total: 0, available: 2048 * 1024 }
    );
    assert_eq!(memory_info_from("MemTotal:"), MemoryInfo { total: 0, available: 0 });
}

#[test]
fn auto_detect_uses_available_memory() {
    let config = SaferRingConfig::auto_detect(
        "6.8.0",
        Some("MemTotal: 4000000 kB\nMemAvailable: 2000000 kB\n"),
    )
    .unwrap();
    assert_eq!(config.buffer.pool_size, 256);
    let config = SaferRingConfig::auto_detect("6.8.0", None).unwrap();
    assert_eq!(config.buffer.pool_size, 64);
    assert!(SaferRingConfig::auto_detect("nonsense", None).is_err());
}

#[test]
fn build_defaults_follow_the_debug_flag() {
    assert!(LoggingConfig::for_build(true).debug_assertions);
    assert!(!LoggingConfig::for_build(false).debug_assertions);
    assert!(!LoggingConfig::default().debug_assertions);
    let c = SaferRingConfig::for_build(true);
    assert!(c.logging.debug_assertions);
    assert_eq!(c.logging.level, LogLevel::Info);
    assert!(!c.logging.enabled);
    assert_eq!(c.ring.sq_entries, SaferRingConfig::default().ring.sq_entries);
}
