//! Configuration options for different safer-ring use cases, from
//! low-latency applications to high-throughput batch processing.
//!
//! Time spans are held as whole nanoseconds.

use vstd::prelude::*;
use vstd::string::*;
use crate::advanced::config::{all_disabled, AdvancedConfig};
use crate::advanced::feature_detection::{detector_for, optimal_config, parse_kernel_version_spec};
use crate::advanced::FeatureDetector;
use crate::error::{IoErrorKind, SaferRingError};
use crate::logging::LogLevel;
use crate::parse::{char_rows, chars_of, has_prefix, lines, parse_u64, parse_u64_spec, split_lines, split_words, starts_with, words};

verus! {

/// Ring-specific configuration options.
#[derive(Debug, Clone, Copy, PartialEq, Eq, Structural)]
pub struct RingConfig {
    /// Number of submission queue entries
    pub sq_entries: u32,
    /// Number of completion queue entries (0 = same as sq_entries)
    pub cq_entries: u32,
    /// Enable submission queue polling
    pub sq_poll: bool,
    /// CPU for SQ polling thread
    pub sq_thread_cpu: Option<u32>,
    /// SQ polling idle timeout in milliseconds
    pub sq_thread_idle: Option<u32>,
    /// Enable completion queue overflow handling
    pub cq_overflow: bool,
    /// Enable kernel submission queue thread
    pub kernel_sq_thread: bool,
}

/// Buffer management configuration.
#[derive(Debug, Clone, Copy, PartialEq, Eq, Structural)]
pub struct BufferConfig {
    /// Default buffer size for operations
    pub default_size: usize,
    /// Buffer alignment (0 = system default)
    pub alignment: usize,
    /// Enable buffer pooling
    pub enable_pooling: bool,
    /// Buffer pool size per thread
    pub pool_size: usize,
    /// Maximum buffer size for pooling
    pub max_pooled_size: usize,
    /// Enable NUMA-aware allocation
    pub numa_aware: bool,
    /// Preferred NUMA node (-1 = no preference)
    pub numa_node: i32,
    /// Enable buffer pre-registration
    pub pre_register: bool,
}

/// Performance optimization configuration.
#[derive(Debug, Clone, Copy, PartialEq, Eq, Structural)]
pub struct PerformanceConfig {
    /// Enable batch submission optimization
    pub batch_submission: bool,
    /// Maximum batch size
    pub max_batch_size: usize,
    /// Batch timeout for partial batches, in nanoseconds
    pub batch_timeout: u64,
    /// Enable zero-copy optimizations
    pub zero_copy: bool,
    /// Enable vectored I/O optimization
    pub vectored_io: bool,
    /// Enable operation coalescing
    pub operation_coalescing: bool,
    /// Coalescing timeout, in nanoseconds
    pub coalescing_timeout: u64,
    /// Enable adaptive polling
    pub adaptive_polling: bool,
    /// Polling timeout, in nanoseconds
    pub poll_timeout: u64,
}

/// Logging and debugging configuration.
#[derive(Debug, Clone)]
pub struct LoggingConfig {
    /// Enable logging
    pub enabled: bool,
    /// Minimum log level
    pub level: LogLevel,
    /// Enable performance metrics collection
    pub metrics: bool,
    /// Enable operation tracing
    pub tracing: bool,
    /// Log file path (None = console only)
    pub log_file: Option<String>,
    /// Use JSON format for logs
    pub json_format: bool,
    /// Enable debug assertions
    pub debug_assertions: bool,
}

/// Error handling configuration.
#[derive(Debug, Clone, Copy, PartialEq, Eq, Structural)]
pub struct ErrorHandlingConfig {
    /// Retry failed operations automatically
    pub auto_retry: bool,
    /// Maximum number of retries
    pub max_retries: u32,
    /// Retry delay, in nanoseconds
    pub retry_delay: u64,
    /// Enable graceful degradation
    pub graceful_degradation: bool,
    /// Fallback to synchronous I/O on errors
    pub sync_fallback: bool,
    /// Panic on unrecoverable errors
    pub panic_on_fatal: bool,
}

/// Comprehensive configuration for safer-ring operations.
#[derive(Debug, Clone)]
pub struct SaferRingConfig {
    /// Ring configuration
    pub ring: RingConfig,
    /// Buffer management configuration
    pub buffer: BufferConfig,
    /// Performance optimization configuration
    pub performance: PerformanceConfig,
    /// Logging and debugging configuration
    pub logging: LoggingConfig,
    /// Advanced io_uring features configuration
    pub advanced: AdvancedConfig,
    /// Error handling configuration
    pub error_handling: ErrorHandlingConfig,
}

/// The text of an optional path.
pub open spec fn path_view(p: Option<String>) -> Option<Seq<char>> {
    match p {
        Some(s) => Some(s@),
        None => None,
    }
}

/// The logging settings, with the log file path as text.
pub open spec fn logging_is(
    l: LoggingConfig,
    enabled: bool,
    level: LogLevel,
    metrics: bool,
    tracing: bool,
    log_file: Option<Seq<char>>,
    json_format: bool,
    debug_assertions: bool,
) -> bool {
    &&& l.enabled == enabled
    &&& l.level == level
    &&& l.metrics == metrics
    &&& l.tracing == tracing
    &&& path_view(l.log_file) == log_file
    &&& l.json_format == json_format
    &&& l.debug_assertions == debug_assertions
}

/// The default ring settings: 128 entries, no polling.
pub open spec fn default_ring() -> RingConfig {
    RingConfig {
        sq_entries: 128,
        cq_entries: 0,
        sq_poll: false,
        sq_thread_cpu: None,
        sq_thread_idle: None,
        cq_overflow: true,
        kernel_sq_thread: false,
    }
}

/// The default buffer settings: 4 KiB buffers, pools of 64 up to 1 MiB.
pub open spec fn default_buffer() -> BufferConfig {
    BufferConfig {
        default_size: 4096,
        alignment: 0,
        enable_pooling: true,
        pool_size: 64,
        max_pooled_size: 1_048_576,
        numa_aware: false,
        numa_node: -1i32,
        pre_register: false,
    }
}

/// The default performance settings.
pub open spec fn default_performance() -> PerformanceConfig {
    PerformanceConfig {
        batch_submission: true,
        max_batch_size: 32,
        batch_timeout: 1_000_000,
        zero_copy: true,
        vectored_io: true,
        operation_coalescing: false,
        coalescing_timeout: 100_000,
        adaptive_polling: false,
        poll_timeout: 10_000,
    }
}

/// The default error handling settings.
pub open spec fn default_error_handling() -> ErrorHandlingConfig {
    ErrorHandlingConfig {
        auto_retry: false,
        max_retries: 3,
        retry_delay: 10_000_000,
        graceful_degradation: true,
        sync_fallback: false,
        panic_on_fatal: true,
    }
}

/// The default logging settings for a build with or without debug
/// assertions: logging off at Info level, debug assertions as the build has
/// them.
pub open spec fn build_logging(debug_assertions: bool) -> LoggingConfig {
    LoggingConfig {
        enabled: false,
        level: LogLevel::Info,
        metrics: false,
        tracing: false,
        log_file: None,
        json_format: false,
        debug_assertions,
    }
}

/// The default logging settings when the build is not known: those of a
/// build without debug assertions.
pub open spec fn default_logging() -> LoggingConfig {
    build_logging(false)
}

/// The default configuration.
pub open spec fn default_config() -> SaferRingConfig {
    SaferRingConfig {
        ring: default_ring(),
        buffer: default_buffer(),
        performance: default_performance(),
        logging: default_logging(),
        advanced: all_disabled(),
        error_handling: default_error_handling(),
    }
}

impl Default for RingConfig {
    fn default() -> (r: Self)
        ensures
            r == default_ring(),
    {
        RingConfig {
            sq_entries: 128,
            cq_entries: 0,
            sq_poll: false,
            sq_thread_cpu: None,
            sq_thread_idle: None,
            cq_overflow: true,
            kernel_sq_thread: false,
        }
    }
}

impl Default for BufferConfig {
    fn default() -> (r: Self)
        ensures
            r == default_buffer(),
    {
        BufferConfig {
            default_size: 4096,
            alignment: 0,
            enable_pooling: true,
            pool_size: 64,
            max_pooled_size: 1_048_576,
            numa_aware: false,
            numa_node: -1i32,
            pre_register: false,
        }
    }
}

impl Default for PerformanceConfig {
    fn default() -> (r: Self)
        ensures
            r == default_performance(),
    {
        PerformanceConfig {
            batch_submission: true,
            max_batch_size: 32,
            batch_timeout: 1_000_000,
            zero_copy: true,
            vectored_io: true,
            operation_coalescing: false,
            coalescing_timeout: 100_000,
            adaptive_polling: false,
            poll_timeout: 10_000,
        }
    }
}

impl LoggingConfig {
    /// The default logging settings for a build with or without debug
    /// assertions; the caller passes `cfg!(debug_assertions)` of its build.
    pub fn for_build(debug_assertions: bool) -> (r: Self)
        ensures
            r == build_logging(debug_assertions),
    {
        LoggingConfig {
            enabled: false,
            level: LogLevel::Info,
            metrics: false,
            tracing: false,
            log_file: None,
            json_format: false,
            debug_assertions,
        }
    }
}

impl Default for LoggingConfig {
    /// The default logging settings. The library cannot see how the
    /// application was built, so debug assertions are off; an application
    /// that wants them to follow its build uses `for_build`.
    fn default() -> (r: Self)
        ensures
            r == default_logging(),
    {
        LoggingConfig::for_build(false)
    }
}

impl Default for ErrorHandlingConfig {
    fn default() -> (r: Self)
        ensures
            r == default_error_handling(),
    {
        ErrorHandlingConfig {
            auto_retry: false,
            max_retries: 3,
            retry_delay: 10_000_000,
            graceful_degradation: true,
            sync_fallback: false,
            panic_on_fatal: true,
        }
    }
}

impl SaferRingConfig {
    /// The default configuration for a build with or without debug
    /// assertions: the defaults, with the logging settings of that build.
    pub fn for_build(debug_assertions: bool) -> (r: Self)
        ensures
            r == (SaferRingConfig { logging: build_logging(debug_assertions), ..default_config() }),
    {
        let mut c = SaferRingConfig::default();
        c.logging = LoggingConfig::for_build(debug_assertions);
        c
    }
}

impl Default for SaferRingConfig {
    fn default() -> (r: Self)
        ensures
            r == default_config(),
    {
        SaferRingConfig {
            ring: RingConfig::default(),
            buffer: BufferConfig::default(),
            performance: PerformanceConfig::default(),
            logging: LoggingConfig::default(),
            advanced: AdvancedConfig::default(),
            error_handling: ErrorHandlingConfig::default(),
        }
    }
}

/// The message of the first check that `validate` finds failing, or `None`
/// when the configuration is consistent.
pub open spec fn config_problem(c: SaferRingConfig) -> Option<Seq<char>> {
    if c.ring.sq_entries == 0 {
        Some("SQ entries must be greater than 0"@)
    } else if c.ring.sq_entries > 4096 {
        Some("SQ entries should not exceed 4096"@)
    } else if c.buffer.default_size == 0 {
        Some("Default buffer size must be greater than 0"@)
    } else if c.buffer.pool_size == 0 && c.buffer.enable_pooling {
        Some("Pool size must be greater than 0 when pooling is enabled"@)
    } else if c.performance.max_batch_size == 0 && c.performance.batch_submission {
        Some("Max batch size must be greater than 0 when batch submission is enabled"@)
    } else if c.error_handling.auto_retry && c.error_handling.max_retries == 0 {
        Some("Max retries must be greater than 0 when auto retry is enabled"@)
    } else {
        None
    }
}

/// The pool size and largest pooled buffer for the given available memory
/// in bytes (`None` when it could not be read).
pub open spec fn pool_for_memory(available: Option<u64>) -> (usize, usize) {
    match available {
        Some(bytes) => {
            let mb = bytes / 1_048_576;
            if mb > 1024 {
                (256, 16_777_216)
            } else if mb > 512 {
                (128, 8_388_608)
            } else {
                (64, 1_048_576)
            }
        },
        None => (64, 1_048_576),
    }
}

/// The configuration `auto_detect` builds for a kernel with the given
/// features, the given number of CPUs and the given available memory.
pub open spec fn auto_config(
    detector: FeatureDetector,
    cpu_count: usize,
    available: Option<u64>,
) -> SaferRingConfig {
    let sq: u32 = if cpu_count * 32 < 1024 { (cpu_count * 32) as u32 } else { 1024 };
    SaferRingConfig {
        advanced: optimal_config(detector.features),
        ring: RingConfig { sq_entries: sq, ..default_ring() },
        buffer: BufferConfig {
            numa_aware: cpu_count > 16,
            pool_size: pool_for_memory(available).0,
            max_pooled_size: pool_for_memory(available).1,
            ..default_buffer()
        },
        ..default_config()
    }
}

/// System memory figures, in bytes.
#[derive(Debug, Clone, Copy, PartialEq, Eq, Structural)]
pub struct MemoryInfo {
    /// Total system memory
    pub total: u64,
    /// Memory available for new allocations
    pub available: u64,
}

/// The byte count a `/proc/meminfo` line gives: its second word read as a
/// number of kibibytes (0 when it is not a number), multiplied by 1024
/// with wrap-around; `None` when the line has no second word.
pub open spec fn kib_line_value(line: Seq<char>) -> Option<u64> {
    if words(line).len() > 1 {
        let kib: u64 = match parse_u64_spec(words(line)[1]) {
            Some(v) => v,
            None => 0,
        };
        Some(((kib * 1024) % 0x1_0000_0000_0000_0000) as u64)
    } else {
        None
    }
}

/// The total and available memory that the lines of `/proc/meminfo` give:
/// the last `MemTotal:` and `MemAvailable:` lines with a value win; 0 for
/// a figure no line gives.
pub open spec fn meminfo_spec(ls: Seq<Seq<char>>) -> MemoryInfo
    decreases ls.len(),
{
    if ls.len() == 0 {
        MemoryInfo { total: 0, available: 0 }
    } else {
        let prev = meminfo_spec(ls.drop_last());
        let l = ls.last();
        if starts_with(l, "MemTotal:"@) {
            match kib_line_value(l) {
                Some(v) => MemoryInfo { total: v, ..prev },
                None => prev,
            }
        } else if starts_with(l, "MemAvailable:"@) {
            match kib_line_value(l) {
                Some(v) => MemoryInfo { available: v, ..prev },
                None => prev,
            }
        } else {
            prev
        }
    }
}

fn kib_value(line: &Vec<char>) -> (r: Option<u64>)
    ensures
        r == kib_line_value(line@),
{
    let ws = split_words(line);
    if ws.len() > 1 {
        proof {
            assert(char_rows(ws@)[1] == ws[1]@);
        }
        let kib: u64 = match parse_u64(&ws[1]) {
            Some(v) => v,
            None => 0,
        };
        Some(kib.wrapping_mul(1024))
    } else {
        None
    }
}

/// The memory figures in the text of `/proc/meminfo`.
pub fn memory_info_from(meminfo: &str) -> (r: MemoryInfo)
    ensures
        r == meminfo_spec(lines(meminfo@)),
{
    let chars = chars_of(meminfo);
    let ls = split_lines(&chars);
    let ghost lv = char_rows(ls@);
    let mut info = MemoryInfo { total: 0, available: 0 };
    let mut i: usize = 0;
    proof {
        assert(lv.subrange(0, 0) =~= Seq::<Seq<char>>::empty());
    }
    while i < ls.len()
        invariant
            i <= ls.len(),
            lv == char_rows(ls@),
            info == meminfo_spec(lv.subrange(0, i as int)),
        decreases ls.len() - i,
    {
        let line = &ls[i];
        proof {
            assert(lv.subrange(0, i + 1).drop_last() =~= lv.subrange(0, i as int));
            assert(lv.subrange(0, i + 1).last() == line@);
        }
        if has_prefix(line, "MemTotal:") {
            match kib_value(line) {
                Some(v) => {
                    info.total = v;
                },
                None => {},
            }
        } else if has_prefix(line, "MemAvailable:") {
            match kib_value(line) {
                Some(v) => {
                    info.available = v;
                },
                None => {},
            }
        }
        i = i + 1;
    }
    proof {
        assert(lv.subrange(0, ls.len() as int) =~= lv);
    }
    info
}

/// The available memory the text of `/proc/meminfo` gives, if it was read.
pub open spec fn available_in(meminfo: Option<&str>) -> Option<u64> {
    match meminfo {
        Some(t) => Some(meminfo_spec(lines(t@)).available),
        None => None,
    }
}

/// `num_cpus::get`: the number of logical CPUs the process may use. The
/// crate documents that it always returns at least 1; how many depends on
/// the machine.
#[verifier::external_body]
fn cpu_count() -> (r: usize)
    ensures
        r >= 1,
{
    num_cpus::get()
}

impl SaferRingConfig {
    /// The low-latency preset, as the specification describes it.
    pub open spec fn low_latency_spec() -> SaferRingConfig {
        SaferRingConfig {
            ring: RingConfig {
                sq_entries: 32,
                cq_entries: 0,
                sq_poll: true,
                sq_thread_cpu: Some(0),
                sq_thread_idle: Some(1),
                cq_overflow: true,
                kernel_sq_thread: true,
            },
            buffer: BufferConfig {
                default_size: 1024,
                alignment: 64,
                enable_pooling: true,
                pool_size: 32,
                max_pooled_size: 65_536,
                numa_aware: true,
                numa_node: -1i32,
                pre_register: true,
            },
            performance: PerformanceConfig {
                batch_submission: false,
                max_batch_size: 1,
                batch_timeout: 1_000,
                zero_copy: true,
                vectored_io: false,
                operation_coalescing: false,
                coalescing_timeout: 0,
                adaptive_polling: true,
                poll_timeout: 100,
            },
            logging: LoggingConfig {
                enabled: false,
                level: LogLevel::Error,
                metrics: false,
                tracing: false,
                log_file: None,
                json_format: false,
                debug_assertions: false,
            },
            advanced: AdvancedConfig {
                buffer_selection: true,
                multi_shot: false,
                provided_buffers: true,
                fast_poll: true,
                sq_poll: true,
                sq_thread_cpu: Some(0),
                coop_taskrun: true,
                defer_taskrun: true,
                ..all_disabled()
            },
            error_handling: ErrorHandlingConfig {
                auto_retry: false,
                max_retries: 0,
                retry_delay: 0,
                graceful_degradation: false,
                sync_fallback: false,
                panic_on_fatal: true,
            },
        }
    }

    /// The high-throughput preset, as the specification describes it.
    pub open spec fn high_throughput_spec() -> SaferRingConfig {
        SaferRingConfig {
            ring: RingConfig {
                sq_entries: 1024,
                cq_entries: 2048,
                sq_poll: false,
                sq_thread_cpu: None,
                sq_thread_idle: None,
                cq_overflow: true,
                kernel_sq_thread: false,
            },
            buffer: BufferConfig {
                default_size: 65_536,
                alignment: 4096,
                enable_pooling: true,
                pool_size: 256,
                max_pooled_size: 16_777_216,
                numa_aware: true,
                numa_node: -1i32,
                pre_register: true,
            },
            performance: PerformanceConfig {
                batch_submission: true,
                max_batch_size: 256,
                batch_timeout: 10_000_000,
                zero_copy: true,
                vectored_io: true,
                operation_coalescing: true,
                coalescing_timeout: 1_000_000,
                adaptive_polling: false,
                poll_timeout: 1_000_000,
            },
            logging: LoggingConfig {
                enabled: true,
                level: LogLevel::Info,
                metrics: true,
                tracing: false,
                log_file: None,
                json_format: false,
                debug_assertions: false,
            },
            advanced: AdvancedConfig {
                buffer_selection: true,
                multi_shot: true,
                provided_buffers: true,
                fast_poll: false,
                sq_poll: false,
                sq_thread_cpu: None,
                coop_taskrun: true,
                defer_taskrun: true,
                ..all_disabled()
            },
            error_handling: ErrorHandlingConfig {
                auto_retry: true,
                max_retries: 3,
                retry_delay: 1_000_000,
                graceful_degradation: true,
                sync_fallback: true,
                panic_on_fatal: false,
            },
        }
    }

    /// The ring settings of the development preset.
    pub open spec fn development_ring() -> RingConfig {
        RingConfig { sq_entries: 64, ..default_ring() }
    }

    /// The buffer settings of the development preset.
    pub open spec fn development_buffer() -> BufferConfig {
        BufferConfig { pool_size: 32, ..default_buffer() }
    }

    /// The performance settings of the development preset.
    pub open spec fn development_performance() -> PerformanceConfig {
        PerformanceConfig {
            batch_submission: true,
            max_batch_size: 16,
            batch_timeout: 1_000_000,
            zero_copy: true,
            vectored_io: true,
            operation_coalescing: false,
            coalescing_timeout: 1_000_000,
            adaptive_polling: false,
            poll_timeout: 1_000_000,
        }
    }

    /// The error handling settings of the development preset.
    pub open spec fn development_error_handling() -> ErrorHandlingConfig {
        ErrorHandlingConfig {
            auto_retry: true,
            max_retries: 1,
            retry_delay: 10_000_000,
            graceful_degradation: true,
            sync_fallback: true,
            panic_on_fatal: false,
        }
    }

    /// The ring settings of the production preset.
    pub open spec fn production_ring() -> RingConfig {
        RingConfig { sq_entries: 256, ..default_ring() }
    }

    /// The buffer settings of the production preset.
    pub open spec fn production_buffer() -> BufferConfig {
        BufferConfig {
            default_size: 8192,
            pool_size: 128,
            max_pooled_size: 4_194_304,
            numa_aware: true,
            ..default_buffer()
        }
    }

    /// The performance settings of the production preset.
    pub open spec fn production_performance() -> PerformanceConfig {
        PerformanceConfig {
            max_batch_size: 64,
            batch_timeout: 5_000_000,
            ..Self::development_performance()
        }
    }

    /// The error handling settings of the production preset.
    pub open spec fn production_error_handling() -> ErrorHandlingConfig {
        ErrorHandlingConfig {
            max_retries: 3,
            retry_delay: 100_000_000,
            ..Self::development_error_handling()
        }
    }

    /// Create a configuration optimized for low latency applications.
    ///
    /// This configuration prioritizes minimal latency over throughput,
    /// suitable for real-time applications and interactive workloads.
    pub fn low_latency() -> (r: Self)
        ensures
            r == Self::low_latency_spec(),
    {
        SaferRingConfig {
            ring: RingConfig {
                sq_entries: 32,
                cq_entries: 0,
                sq_poll: true,
                sq_thread_cpu: Some(0),
                sq_thread_idle: Some(1),
                cq_overflow: true,
                kernel_sq_thread: true,
            },
            buffer: BufferConfig {
                default_size: 1024,
                alignment: 64,
                enable_pooling: true,
                pool_size: 32,
                max_pooled_size: 65_536,
                numa_aware: true,
                numa_node: -1i32,
                pre_register: true,
            },
            performance: PerformanceConfig {
                batch_submission: false,
                max_batch_size: 1,
                batch_timeout: 1_000,
                zero_copy: true,
                vectored_io: false,
                operation_coalescing: false,
                coalescing_timeout: 0,
                adaptive_polling: true,
                poll_timeout: 100,
            },
            logging: LoggingConfig {
                enabled: false,
                level: LogLevel::Error,
                metrics: false,
                tracing: false,
                log_file: None,
                json_format: false,
                debug_assertions: false,
            },
            advanced: AdvancedConfig {
                buffer_selection: true,
                multi_shot: false,
                provided_buffers: true,
                fast_poll: true,
                sq_poll: true,
                sq_thread_cpu: Some(0),
                coop_taskrun: true,
                defer_taskrun: true,
                ..AdvancedConfig::default()
            },
            error_handling: ErrorHandlingConfig {
                auto_retry: false,
                max_retries: 0,
                retry_delay: 0,
                graceful_degradation: false,
                sync_fallback: false,
                panic_on_fatal: true,
            },
        }
    }

    /// Create a configuration optimized for high throughput applications.
    ///
    /// This configuration prioritizes maximum throughput over latency,
    /// suitable for batch processing and data-intensive workloads.
    pub fn high_throughput() -> (r: Self)
        ensures
            r == Self::high_throughput_spec(),
    {
        SaferRingConfig {
            ring: RingConfig {
                sq_entries: 1024,
                cq_entries: 2048,
                sq_poll: false,
                sq_thread_cpu: None,
                sq_thread_idle: None,
                cq_overflow: true,
                kernel_sq_thread: false,
            },
            buffer: BufferConfig {
                default_size: 65_536,
                alignment: 4096,
                enable_pooling: true,
                pool_size: 256,
                max_pooled_size: 16_777_216,
                numa_aware: true,
                numa_node: -1i32,
                pre_register: true,
            },
            performance: PerformanceConfig {
                batch_submission: true,
                max_batch_size: 256,
                batch_timeout: 10_000_000,
                zero_copy: true,
                vectored_io: true,
                operation_coalescing: true,
                coalescing_timeout: 1_000_000,
                adaptive_polling: false,
                poll_timeout: 1_000_000,
            },
            logging: LoggingConfig {
                enabled: true,
                level: LogLevel::Info,
                metrics: true,
                tracing: false,
                log_file: None,
                json_format: false,
                debug_assertions: false,
            },
            advanced: AdvancedConfig {
                buffer_selection: true,
                multi_shot: true,
                provided_buffers: true,
                fast_poll: false,
                sq_poll: false,
                sq_thread_cpu: None,
                coop_taskrun: true,
                defer_taskrun: true,
                ..AdvancedConfig::default()
            },
            error_handling: ErrorHandlingConfig {
                auto_retry: true,
                max_retries: 3,
                retry_delay: 1_000_000,
                graceful_degradation: true,
                sync_fallback: true,
                panic_on_fatal: false,
            },
        }
    }

    /// Create a configuration optimized for development and debugging.
    ///
    /// This configuration enables comprehensive logging and debugging features
    /// at the cost of performance, suitable for development and testing.
    pub fn development() -> (r: Self)
        ensures
            r.ring == Self::development_ring(),
            r.buffer == Self::development_buffer(),
            r.performance == Self::development_performance(),
            logging_is(r.logging, true, LogLevel::Debug, true, true, Some("safer-ring.log"@), false, true),
            r.advanced == all_disabled(),
            r.error_handling == Self::development_error_handling(),
    {
        SaferRingConfig {
            ring: RingConfig { sq_entries: 64, ..RingConfig::default() },
            buffer: BufferConfig { pool_size: 32, ..BufferConfig::default() },
            performance: PerformanceConfig {
                batch_submission: true,
                max_batch_size: 16,
                batch_timeout: 1_000_000,
                zero_copy: true,
                vectored_io: true,
                operation_coalescing: false,
                coalescing_timeout: 1_000_000,
                adaptive_polling: false,
                poll_timeout: 1_000_000,
            },
            logging: LoggingConfig {
                enabled: true,
                level: LogLevel::Debug,
                metrics: true,
                tracing: true,
                log_file: Some(String::from_str("safer-ring.log")),
                json_format: false,
                debug_assertions: true,
            },
            advanced: AdvancedConfig::default(),
            error_handling: ErrorHandlingConfig {
                auto_retry: true,
                max_retries: 1,
                retry_delay: 10_000_000,
                graceful_degradation: true,
                sync_fallback: true,
                panic_on_fatal: false,
            },
        }
    }

    /// Create a configuration optimized for production environments.
    ///
    /// This configuration balances performance and reliability for production
    /// deployments with appropriate logging and error handling.
    pub fn production() -> (r: Self)
        ensures
            r.ring == Self::production_ring(),
            r.buffer == Self::production_buffer(),
            r.performance == Self::production_performance(),
            logging_is(r.logging, true, LogLevel::Warn, true, false, Some("/var/log/safer-ring.log"@), true, false),
            r.advanced == all_disabled(),
            r.error_handling == Self::production_error_handling(),
    {
        SaferRingConfig {
            ring: RingConfig { sq_entries: 256, ..RingConfig::default() },
            buffer: BufferConfig {
                default_size: 8192,
                pool_size: 128,
                max_pooled_size: 4_194_304,
                numa_aware: true,
                ..BufferConfig::default()
            },
            performance: PerformanceConfig {
                batch_submission: true,
                max_batch_size: 64,
                batch_timeout: 5_000_000,
                zero_copy: true,
                vectored_io: true,
                operation_coalescing: false,
                coalescing_timeout: 1_000_000,
                adaptive_polling: false,
                poll_timeout: 1_000_000,
            },
            logging: LoggingConfig {
                enabled: true,
                level: LogLevel::Warn,
                metrics: true,
                tracing: false,
                log_file: Some(String::from_str("/var/log/safer-ring.log")),
                json_format: true,
                debug_assertions: false,
            },
            advanced: AdvancedConfig::default(),
            error_handling: ErrorHandlingConfig {
                auto_retry: true,
                max_retries: 3,
                retry_delay: 100_000_000,
                graceful_degradation: true,
                sync_fallback: true,
                panic_on_fatal: false,
            },
        }
    }

    /// Builds the configuration for a kernel with the detector's features,
    /// `cpu_count` CPUs and the given available memory in bytes (`None`
    /// when it could not be read): the optimal advanced features, 32
    /// submission entries per CPU up to 1024, NUMA awareness beyond 16 CPUs,
    /// and larger pools where more than 512 MiB or 1 GiB is available.
    pub fn auto_detect_with(detector: &FeatureDetector, cpu_count: usize, available_memory: Option<u64>) -> (r: Self)
        ensures
            r == auto_config(*detector, cpu_count, available_memory),
    {
        let (pool_size, max_pooled_size): (usize, usize) = match available_memory {
            Some(bytes) => {
                let available_mb = bytes / 1_048_576;
                if available_mb > 1024 {
                    (256, 16_777_216)
                } else if available_mb > 512 {
                    (128, 8_388_608)
                } else {
                    (64, 1_048_576)
                }
            },
            None => (64, 1_048_576),
        };
        let sq_entries: u32 = if cpu_count < 32 { (cpu_count * 32) as u32 } else { 1024 };
        SaferRingConfig {
            advanced: detector.create_optimal_config(),
            ring: RingConfig { sq_entries, ..RingConfig::default() },
            buffer: BufferConfig {
                numa_aware: cpu_count > 16,
                pool_size,
                max_pooled_size,
                ..BufferConfig::default()
            },
            ..Self::default()
        }
    }

    /// Creates the configuration that suits the running system: the kernel
    /// release (as `uname -r` prints it), the text of `/proc/meminfo` where
    /// it could be read, and the number of CPUs, which this function asks
    /// for itself.
    ///
    /// # Errors
    ///
    /// Returns an `InvalidData` I/O error when the release cannot be parsed.
    pub fn auto_detect(release: &str, meminfo: Option<&str>) -> (r: Result<Self, SaferRingError>)
        ensures
            parse_kernel_version_spec(release@) is Ok <==> r is Ok,
            r matches Ok(c) ==> exists|n: usize|
                n >= 1 && c == auto_config(
                    detector_for(parse_kernel_version_spec(release@)->Ok_0),
                    n,
                    available_in(meminfo),
                ),
            r matches Ok(c) ==> config_problem(c) is None && c.ring.sq_entries >= 32 && c.buffer
                == (BufferConfig {
                numa_aware: c.buffer.numa_aware,
                pool_size: pool_for_memory(available_in(meminfo)).0,
                max_pooled_size: pool_for_memory(available_in(meminfo)).1,
                ..default_buffer()
            }),
    {
        let detector = match FeatureDetector::new(release) {
            Ok(d) => d,
            Err(e) => {
                return Err(e);
            },
        };
        let cpus = cpu_count();
        let available = match meminfo {
            Some(text) => Some(memory_info_from(text).available),
            None => None,
        };
        let config = Self::auto_detect_with(&detector, cpus, available);
        proof {
            assert(detector == detector_for(parse_kernel_version_spec(release@)->Ok_0));
        }
        Ok(config)
    }

    /// Checks the configuration for consistency: submission entries between
    /// 1 and 4096, a nonzero default buffer size, a nonzero pool size when
    /// pooling, a nonzero batch size when batching, and retries when
    /// retrying automatically.
    ///
    /// # Errors
    ///
    /// Returns an `InvalidInput` I/O error naming the first check that fails.
    pub fn validate(&self) -> (r: Result<(), SaferRingError>)
        ensures
            match config_problem(*self) {
                None => r is Ok,
                Some(msg) => r matches Err(SaferRingError::Io(e)) && e.kind == IoErrorKind::InvalidInput
                    && e.message@ == msg,
            },
    {
        if self.ring.sq_entries == 0 {
            return Err(SaferRingError::io(IoErrorKind::InvalidInput, "SQ entries must be greater than 0"));
        }
        if self.ring.sq_entries > 4096 {
            return Err(SaferRingError::io(IoErrorKind::InvalidInput, "SQ entries should not exceed 4096"));
        }
        if self.buffer.default_size == 0 {
            return Err(
                SaferRingError::io(IoErrorKind::InvalidInput, "Default buffer size must be greater than 0"),
            );
        }
        if self.buffer.pool_size == 0 && self.buffer.enable_pooling {
            return Err(
                SaferRingError::io(
                    IoErrorKind::InvalidInput,
                    "Pool size must be greater than 0 when pooling is enabled",
                ),
            );
        }
        if self.performance.max_batch_size == 0 && self.performance.batch_submission {
            return Err(
                SaferRingError::io(
                    IoErrorKind::InvalidInput,
                    "Max batch size must be greater than 0 when batch submission is enabled",
                ),
            );
        }
        if self.error_handling.auto_retry && self.error_handling.max_retries == 0 {
            return Err(
                SaferRingError::io(
                    IoErrorKind::InvalidInput,
                    "Max retries must be greater than 0 when auto retry is enabled",
                ),
            );
        }
        Ok(())
    }
}

/// Configuration builder for fluent configuration creation.
#[derive(Debug)]
pub struct ConfigBuilder {
    config: SaferRingConfig,
}

impl ConfigBuilder {
    /// The configuration built so far.
    pub closed spec fn current(&self) -> SaferRingConfig {
        self.config
    }

    /// Create a new configuration builder, starting from the defaults.
    pub fn new() -> (r: Self)
        ensures
            r.current() == default_config(),
    {
        ConfigBuilder { config: SaferRingConfig::default() }
    }

    /// Set ring configuration.
    pub fn ring(self, ring: RingConfig) -> (r: Self)
        ensures
            r.current() == (SaferRingConfig { ring, ..self.current() }),
    {
        let mut b = self;
        b.config.ring = ring;
        b
    }

    /// Set buffer configuration.
    pub fn buffer(self, buffer: BufferConfig) -> (r: Self)
        ensures
            r.current() == (SaferRingConfig { buffer, ..self.current() }),
    {
        let mut b = self;
        b.config.buffer = buffer;
        b
    }

    /// Set performance configuration.
    pub fn performance(self, performance: PerformanceConfig) -> (r: Self)
        ensures
            r.current() == (SaferRingConfig { performance, ..self.current() }),
    {
        let mut b = self;
        b.config.performance = performance;
        b
    }

    /// Set logging configuration.
    pub fn logging(self, logging: LoggingConfig) -> (r: Self)
        ensures
            r.current() == (SaferRingConfig { logging, ..self.current() }),
    {
        let mut b = self;
        b.config.logging = logging;
        b
    }

    /// Set advanced configuration.
    pub fn advanced(self, advanced: AdvancedConfig) -> (r: Self)
        ensures
            r.current() == (SaferRingConfig { advanced, ..self.current() }),
    {
        let mut b = self;
        b.config.advanced = advanced;
        b
    }

    /// Set error handling configuration.
    pub fn error_handling(self, error_handling: ErrorHandlingConfig) -> (r: Self)
        ensures
            r.current() == (SaferRingConfig { error_handling, ..self.current() }),
    {
        let mut b = self;
        b.config.error_handling = error_handling;
        b
    }

    /// Build the final configuration, which must pass `validate`.
    ///
    /// # Errors
    ///
    /// Returns the error `validate` reports.
    pub fn build(self) -> (r: Result<SaferRingConfig, SaferRingError>)
        ensures
            match config_problem(self.current()) {
                None => r == Ok::<SaferRingConfig, SaferRingError>(self.current()),
                Some(msg) => r matches Err(SaferRingError::Io(e)) && e.kind == IoErrorKind::InvalidInput
                    && e.message@ == msg,
            },
    {
        match self.config.validate() {
            Ok(()) => Ok(self.config),
            Err(e) => Err(e),
        }
    }
}

impl Default for ConfigBuilder {
    fn default() -> (r: Self)
        ensures
            r.current() == default_config(),
    {
        Self::new()
    }
}

/// Every preset, the default configuration and every automatically
/// detected configuration pass `validate`.
pub proof fn lemma_presets_are_valid(detector: FeatureDetector, cpu_count: usize, available: Option<u64>)
    requires
        cpu_count >= 1,
    ensures
        config_problem(default_config()) is None,
        config_problem(SaferRingConfig::low_latency_spec()) is None,
        config_problem(SaferRingConfig::high_throughput_spec()) is None,
        config_problem(auto_config(detector, cpu_count, available)) is None,
        forall|c: SaferRingConfig|
            c.ring == SaferRingConfig::development_ring() && c.buffer == SaferRingConfig::development_buffer()
                && c.performance == SaferRingConfig::development_performance() && c.error_handling
                == SaferRingConfig::development_error_handling() ==> #[trigger] config_problem(c) is None,
        forall|c: SaferRingConfig|
            c.ring == SaferRingConfig::production_ring() && c.buffer == SaferRingConfig::production_buffer()
                && c.performance == SaferRingConfig::production_performance() && c.error_handling
                == SaferRingConfig::production_error_handling() ==> #[trigger] config_problem(c) is None,
{
}

} // verus!
