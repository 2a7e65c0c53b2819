use safer_ring::error::SaferRingError;
use safer_ring::logging::{
    ConsoleOutput, FileOutput, LogEntry, LogLevel, Logger, OutputTarget, PerformanceMetrics,
};

const MS: u64 = 1_000_000;

#[test]
fn test_log_entry_creation() {
    let entry = LogEntry::new(LogLevel::Info, "test", "test message")
        .with_operation_id(123)
        .with_fd(4)
        .with_metadata("key", "value")
        .with_duration(10 * MS);

    assert_eq!(entry.level, LogLevel::Info);
    assert_eq!(entry.component, "test");
    assert_eq!(entry.message, "test message");
    assert_eq!(entry.operation_id, Some(123));
    assert_eq!(entry.fd, Some(4));
    assert_eq!(
        entry.metadata.iter().find(|(k, _)| k == "key").map(|(_, v)| v),
        Some(&"value".to_string())
    );
    assert_eq!(entry.duration, Some(10 * MS));
}

#[test]
fn test_log_entry_formatting() {
    let entry = LogEntry::new(LogLevel::Info, "test", "test message");
    let formatted = entry.format();

    assert!(formatted.contains("INFO"));
    assert!(formatted.contains("test"));
    assert!(formatted.contains("test message"));
}

#[test]
fn test_log_entry_json_formatting() {
    let entry = LogEntry::new(LogLevel::Info, "test", "test message");
    let json = entry.format_json();

    assert!(json.contains("\"level\":\"INFO\""));
    assert!(json.contains("\"component\":\"test\""));
    assert!(json.contains("\"message\":\"test message\""));
}

#[test]
fn test_logger_creation() {
    let logger = Logger::new();
    assert_eq!(logger.min_level(), LogLevel::Info);
    assert_eq!(logger.outputs().len(), 1);
}

#[test]
fn test_performance_metrics() {
    let mut metrics = PerformanceMetrics::new();

    metrics.record_operation("read", 10 * MS);
    metrics.record_operation("read", 20 * MS);
    metrics.record_operation("write", 15 * MS);

    assert_eq!(metrics.get_count("read"), 2);
    assert_eq!(metrics.get_count("write"), 1);
    assert_eq!(metrics.get_total_operations(), 3);

    assert_eq!(metrics.get_average_duration("read"), Some(15 * MS));
    assert_eq!(metrics.get_min_duration("read"), Some(10 * MS));
    assert_eq!(metrics.get_max_duration("read"), Some(20 * MS));
}

#[test]
fn formatted_line_has_every_part_in_order() {
    let mut entry = LogEntry::new(LogLevel::Warn, "ring", "slow \"op\"")
        .with_operation_id(7)
        .with_fd(-1)
        .with_duration(2_500_000)
        .with_metadata("a", "1")
        .with_metadata("b", "x\"y")
        .with_metadata("a", "2");
    entry.timestamp = 1234;
    assert_eq!(
        entry.format(),
        "[1234] WARN ring op:7 fd:-1 slow \"op\" duration:2500μs metadata:{a:2,b:x\"y}"
    );
    assert_eq!(
        entry.format_json(),
        "{\"timestamp\":1234,\"level\":\"WARN\",\"component\":\"ring\",\"message\":\"slow \\\"op\\\"\",\"operation_id\":7,\"fd\":-1,\"duration_us\":2500,\"metadata\":{\"a\":\"2\",\"b\":\"x\\\"y\"}}"
    );
}

#[test]
fn logger_filters_by_level_and_renders_per_output() {
    let mut logger = Logger::new();
    assert!(logger.log(LogLevel::Debug, "c", "hidden").is_empty());
    logger.add_output(OutputTarget::File(FileOutput::new_json("/tmp/x.log")));
    logger.add_output(OutputTarget::Console(ConsoleOutput::new_json()));
    let lines = logger.log(LogLevel::Error, "c", "shown");
    assert_eq!(lines.len(), 3);
    assert!(lines[0].contains(" ERROR c shown"));
    assert!(lines[1].contains("\"message\":\"shown\""));
    assert!(lines[2].starts_with('{'));
    logger.set_level(LogLevel::Trace);
    let lines = logger.log_operation(LogLevel::Trace, "c", 9, Some(3), "op");
    assert!(lines[0].contains("op:9 fd:3 op"));
    let lines = logger.log_error("c", &SaferRingError::PoolEmpty, "get");
    assert!(lines[0].contains("get: Buffer pool is empty"));
}

#[test]
fn log_timing_records_metrics() {
    let mut logger = Logger::new();
    assert!(logger.log_timing("c", "read", 5 * MS).is_empty());
    assert_eq!(logger.get_metrics().unwrap().get_count("read"), 0);
    logger.set_level(LogLevel::Debug);
    let lines = logger.log_timing("c", "read", 5 * MS);
    assert_eq!(lines.len(), 1);
    assert!(lines[0].contains("read completed duration:5000μs"));
    let metrics = logger.get_metrics().unwrap();
    assert_eq!(metrics.get_count("read"), 1);
    assert!(logger.reset_metrics().is_ok());
    assert_eq!(logger.get_metrics().unwrap().get_total_operations(), 0);
}

#[test]
fn report_lists_each_operation() {
    let mut metrics = PerformanceMetrics::new();
    metrics.record_operation("read", 2 * MS);
    metrics.record_operation("read", 4 * MS);
    let report = metrics.report_with(1_500_000_000);
    assert_eq!(
        report,
        "=== Safer-Ring Performance Metrics ===\nCollection Duration: 1.5s\nTotal Operations: 2\n\nOperation: read\n  Count: 2\n  Average Duration: 3ms\n  Min Duration: 2ms\n  Max Duration: 4ms\n\n"
    );
    assert_eq!(metrics.get_operation_types(), vec!["read".to_string()]);
    assert!(metrics.get_average_duration("write").is_none());
}

#[test]
fn metrics_tell_whether_a_timing_still_fits() {
    let mut metrics = PerformanceMetrics::new();
    assert!(metrics.can_record("read", u64::MAX));
    metrics.record_operation("read", u64::MAX - 10);
    assert!(metrics.can_record("read", 10));
    assert!(!metrics.can_record("read", 11));
    assert!(metrics.can_record("write", u64::MAX));
}
