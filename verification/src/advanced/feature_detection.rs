//! Kernel feature detection and capability probing.

use vstd::prelude::*;
use vstd::string::*;
use crate::opcodes::{
    opcode_accept, opcode_async_cancel, opcode_poll_add, opcode_read, opcode_recv, opcode_send_zc,
    opcode_timeout, opcode_write,
};
use crate::advanced::config::AdvancedConfig;
use crate::error::{IoError, IoErrorKind, SaferRingError};
use crate::names::{
    enabled_names, enabled_names_spec, lemma_enabled_names_distinct, flag_of, lemma_enabled_iff_flag, lemma_enabled_names_len_mono, lookup_flag, names_view, table_view,
};
use crate::parse::{
    char_rows, chars_of, leading_digits, parse_u32, parse_u32_spec, split_chars, split_fields,
    take_leading_digits,
};

verus! {

/// Kernel version information.
#[derive(Debug, Clone, Copy, PartialEq, Eq, PartialOrd, Ord, Structural)]
pub struct KernelVersion {
    /// Major version number
    pub major: u32,
    /// Minor version number
    pub minor: u32,
    /// Patch version number
    pub patch: u32,
}

/// `a` is the same version as `b` or an older one: versions are ordered by
/// major, then minor, then patch number.
pub open spec fn version_le(a: KernelVersion, b: KernelVersion) -> bool {
    a.major < b.major || (a.major == b.major && (a.minor < b.minor || (a.minor == b.minor
        && a.patch <= b.patch)))
}

/// The version `major.minor.0` or a later one is running.
pub open spec fn since(v: KernelVersion, major: u32, minor: u32) -> bool {
    version_le(KernelVersion { major, minor, patch: 0 }, v)
}

impl KernelVersion {
    /// Whether this version is `other` or a later one.
    pub fn is_at_least(&self, other: &KernelVersion) -> (r: bool)
        ensures
            r == version_le(*other, *self),
    {
        self.major > other.major || (self.major == other.major && (self.minor > other.minor || (
        self.minor == other.minor && self.patch >= other.patch)))
    }
}

fn since_exec(v: &KernelVersion, major: u32, minor: u32) -> (r: bool)
    ensures
        r == since(*v, major, minor),
{
    v.is_at_least(&KernelVersion { major, minor, patch: 0 })
}

/// Available io_uring features on this kernel.
#[derive(Debug, Clone, Copy, PartialEq, Eq, Structural)]
pub struct AvailableFeatures {
    /// Buffer selection is supported
    pub buffer_selection: bool,
    /// Multi-shot operations are supported
    pub multi_shot: bool,
    /// Provided buffers are supported
    pub provided_buffers: bool,
    /// Fast poll is supported
    pub fast_poll: bool,
    /// SQ polling is supported
    pub sq_poll: bool,
    /// Cooperative task running is supported
    pub coop_taskrun: bool,
    /// Task work defer is supported
    pub defer_taskrun: bool,
    /// Fixed files are supported
    pub fixed_files: bool,
    /// Fixed buffers are supported
    pub fixed_buffers: bool,
    /// Advanced task work management (6.1+)
    pub advanced_task_work: bool,
    /// Deferred async work until GETEVENTS (6.1+)
    pub defer_async_work: bool,
    /// Zero-copy send reporting with SEND_ZC_REPORT_USAGE (6.2+)
    pub send_zc_reporting: bool,
    /// Completion batching for multishot operations (6.2+)
    pub multishot_completion_batching: bool,
    /// EPOLL_URING_WAKE support (6.2+)
    pub epoll_uring_wake: bool,
    /// io_uring_register() with registered ring fd (6.3+)
    pub registered_ring_fd: bool,
    /// Multishot timeout operations (6.4+)
    pub multishot_timeouts: bool,
    /// User-allocated ring memory (6.5+)
    pub user_allocated_ring_memory: bool,
    /// Async operation cancellation with IORING_ASYNC_CANCEL_OP (6.6+)
    pub async_cancel_op: bool,
    /// io_uring command support for sockets (6.6+)
    pub socket_command_support: bool,
    /// System-wide io_uring disable sysctl (6.6+)
    pub sysctl_disable_support: bool,
    /// Direct I/O performance optimizations (6.6+)
    pub direct_io_optimizations: bool,
    /// MSG_RING performance improvements (6.11+)
    pub msg_ring_speedup: bool,
    /// Native bind/listen operations (6.11+)
    pub native_bind_listen: bool,
    /// Improved huge page segment handling (6.12+)
    pub improved_huge_pages: bool,
    /// Fully asynchronous discard operations (6.12+)
    pub async_discard: bool,
    /// Minimum timeout waits with dual conditions (6.12+)
    pub minimum_timeout_waits: bool,
    /// Absolute timeouts with multiple clock sources (6.12+)
    pub absolute_timeouts: bool,
    /// Incremental provided buffer consumption (6.12+)
    pub incremental_buffer_consumption: bool,
    /// Registered buffer cloning across threads (6.12+)
    pub registered_buffer_cloning: bool,
}

/// The names of the features, in the order `available_features` lists them.
pub open spec fn feature_names_spec() -> Seq<Seq<char>> {
    seq![
        "fixed_files"@,
        "fixed_buffers"@,
        "fast_poll"@,
        "sq_poll"@,
        "buffer_selection"@,
        "provided_buffers"@,
        "multi_shot"@,
        "coop_taskrun"@,
        "defer_taskrun"@,
        "advanced_task_work"@,
        "defer_async_work"@,
        "send_zc_reporting"@,
        "multishot_completion_batching"@,
        "epoll_uring_wake"@,
        "registered_ring_fd"@,
        "multishot_timeouts"@,
        "user_allocated_ring_memory"@,
        "async_cancel_op"@,
        "socket_command_support"@,
        "sysctl_disable_support"@,
        "direct_io_optimizations"@,
        "msg_ring_speedup"@,
        "native_bind_listen"@,
        "improved_huge_pages"@,
        "async_discard"@,
        "minimum_timeout_waits"@,
        "absolute_timeouts"@,
        "incremental_buffer_consumption"@,
        "registered_buffer_cloning"@,
    ]
}

/// No feature name occurs twice: no two names agree in both their length
/// and their second letter.
proof fn lemma_feature_names_distinct()
    ensures
        feature_names_spec().no_duplicates(),
{
    reveal_strlit("fixed_files");
    reveal_strlit("fixed_buffers");
    reveal_strlit("fast_poll");
    reveal_strlit("sq_poll");
    reveal_strlit("buffer_selection");
    reveal_strlit("provided_buffers");
    reveal_strlit("multi_shot");
    reveal_strlit("coop_taskrun");
    reveal_strlit("defer_taskrun");
    reveal_strlit("advanced_task_work");
    reveal_strlit("defer_async_work");
    reveal_strlit("send_zc_reporting");
    reveal_strlit("multishot_completion_batching");
    reveal_strlit("epoll_uring_wake");
    reveal_strlit("registered_ring_fd");
    reveal_strlit("multishot_timeouts");
    reveal_strlit("user_allocated_ring_memory");
    reveal_strlit("async_cancel_op");
    reveal_strlit("socket_command_support");
    reveal_strlit("sysctl_disable_support");
    reveal_strlit("direct_io_optimizations");
    reveal_strlit("msg_ring_speedup");
    reveal_strlit("native_bind_listen");
    reveal_strlit("improved_huge_pages");
    reveal_strlit("async_discard");
    reveal_strlit("minimum_timeout_waits");
    reveal_strlit("absolute_timeouts");
    reveal_strlit("incremental_buffer_consumption");
    reveal_strlit("registered_buffer_cloning");
    let s = feature_names_spec();
    assert forall|i: int, j: int| 0 <= i < s.len() && 0 <= j < s.len() && i != j implies s[i] != s[j] by {
        if s[i] == s[j] {
            assert(s[i].len() == s[j].len() && s[i][1] == s[j][1]);
        }
    }
}

impl AvailableFeatures {
    /// Each feature flag paired with its name, in the order `available_features` lists them.
    pub open spec fn feature_table_spec(self) -> Seq<(bool, Seq<char>)> {
        seq![
            (self.fixed_files, "fixed_files"@),
            (self.fixed_buffers, "fixed_buffers"@),
            (self.fast_poll, "fast_poll"@),
            (self.sq_poll, "sq_poll"@),
            (self.buffer_selection, "buffer_selection"@),
            (self.provided_buffers, "provided_buffers"@),
            (self.multi_shot, "multi_shot"@),
            (self.coop_taskrun, "coop_taskrun"@),
            (self.defer_taskrun, "defer_taskrun"@),
            (self.advanced_task_work, "advanced_task_work"@),
            (self.defer_async_work, "defer_async_work"@),
            (self.send_zc_reporting, "send_zc_reporting"@),
            (self.multishot_completion_batching, "multishot_completion_batching"@),
            (self.epoll_uring_wake, "epoll_uring_wake"@),
            (self.registered_ring_fd, "registered_ring_fd"@),
            (self.multishot_timeouts, "multishot_timeouts"@),
            (self.user_allocated_ring_memory, "user_allocated_ring_memory"@),
            (self.async_cancel_op, "async_cancel_op"@),
            (self.socket_command_support, "socket_command_support"@),
            (self.sysctl_disable_support, "sysctl_disable_support"@),
            (self.direct_io_optimizations, "direct_io_optimizations"@),
            (self.msg_ring_speedup, "msg_ring_speedup"@),
            (self.native_bind_listen, "native_bind_listen"@),
            (self.improved_huge_pages, "improved_huge_pages"@),
            (self.async_discard, "async_discard"@),
            (self.minimum_timeout_waits, "minimum_timeout_waits"@),
            (self.absolute_timeouts, "absolute_timeouts"@),
            (self.incremental_buffer_consumption, "incremental_buffer_consumption"@),
            (self.registered_buffer_cloning, "registered_buffer_cloning"@),
        ]
    }

    fn feature_table(&self) -> (r: Vec<(bool, &'static str)>)
        ensures
            table_view(r@) == self.feature_table_spec(),
    {
        let t = vec![
            (self.fixed_files, "fixed_files"),
            (self.fixed_buffers, "fixed_buffers"),
            (self.fast_poll, "fast_poll"),
            (self.sq_poll, "sq_poll"),
            (self.buffer_selection, "buffer_selection"),
            (self.provided_buffers, "provided_buffers"),
            (self.multi_shot, "multi_shot"),
            (self.coop_taskrun, "coop_taskrun"),
            (self.defer_taskrun, "defer_taskrun"),
            (self.advanced_task_work, "advanced_task_work"),
            (self.defer_async_work, "defer_async_work"),
            (self.send_zc_reporting, "send_zc_reporting"),
            (self.multishot_completion_batching, "multishot_completion_batching"),
            (self.epoll_uring_wake, "epoll_uring_wake"),
            (self.registered_ring_fd, "registered_ring_fd"),
            (self.multishot_timeouts, "multishot_timeouts"),
            (self.user_allocated_ring_memory, "user_allocated_ring_memory"),
            (self.async_cancel_op, "async_cancel_op"),
            (self.socket_command_support, "socket_command_support"),
            (self.sysctl_disable_support, "sysctl_disable_support"),
            (self.direct_io_optimizations, "direct_io_optimizations"),
            (self.msg_ring_speedup, "msg_ring_speedup"),
            (self.native_bind_listen, "native_bind_listen"),
            (self.improved_huge_pages, "improved_huge_pages"),
            (self.async_discard, "async_discard"),
            (self.minimum_timeout_waits, "minimum_timeout_waits"),
            (self.absolute_timeouts, "absolute_timeouts"),
            (self.incremental_buffer_consumption, "incremental_buffer_consumption"),
            (self.registered_buffer_cloning, "registered_buffer_cloning"),
        ];
        proof {
            assert(table_view(t@) =~= self.feature_table_spec());
        }
        t
    }
}

/// The features a kernel of version `v` has, by the release that introduced each.
pub open spec fn version_features(v: KernelVersion) -> AvailableFeatures {
    AvailableFeatures {
        buffer_selection: since(v, 5, 13),
        multi_shot: since(v, 5, 19),
        provided_buffers: since(v, 5, 13),
        fast_poll: since(v, 5, 7),
        sq_poll: since(v, 5, 11),
        coop_taskrun: since(v, 6, 0),
        defer_taskrun: since(v, 6, 0),
        fixed_files: since(v, 5, 1),
        fixed_buffers: since(v, 5, 1),
        advanced_task_work: since(v, 6, 1),
        defer_async_work: since(v, 6, 1),
        send_zc_reporting: since(v, 6, 2),
        multishot_completion_batching: since(v, 6, 2),
        epoll_uring_wake: since(v, 6, 2),
        registered_ring_fd: since(v, 6, 3),
        multishot_timeouts: since(v, 6, 4),
        user_allocated_ring_memory: since(v, 6, 5),
        async_cancel_op: since(v, 6, 6),
        socket_command_support: since(v, 6, 6),
        sysctl_disable_support: since(v, 6, 6),
        direct_io_optimizations: since(v, 6, 6),
        msg_ring_speedup: since(v, 6, 11),
        native_bind_listen: since(v, 6, 11),
        improved_huge_pages: since(v, 6, 12),
        async_discard: since(v, 6, 12),
        minimum_timeout_waits: since(v, 6, 12),
        absolute_timeouts: since(v, 6, 12),
        incremental_buffer_consumption: since(v, 6, 12),
        registered_buffer_cloning: since(v, 6, 12),
    }
}

/// Either source reports the basic features; the newer ones are taken from
/// the version alone.
pub open spec fn merged_features(version: AvailableFeatures, probed: AvailableFeatures) -> AvailableFeatures {
    AvailableFeatures {
        buffer_selection: version.buffer_selection || probed.buffer_selection,
        multi_shot: version.multi_shot || probed.multi_shot,
        provided_buffers: version.provided_buffers || probed.provided_buffers,
        fast_poll: version.fast_poll || probed.fast_poll,
        sq_poll: version.sq_poll || probed.sq_poll,
        coop_taskrun: version.coop_taskrun || probed.coop_taskrun,
        defer_taskrun: version.defer_taskrun || probed.defer_taskrun,
        fixed_files: version.fixed_files || probed.fixed_files,
        fixed_buffers: version.fixed_buffers || probed.fixed_buffers,
        advanced_task_work: version.advanced_task_work,
        defer_async_work: version.defer_async_work,
        send_zc_reporting: version.send_zc_reporting,
        multishot_completion_batching: version.multishot_completion_batching,
        epoll_uring_wake: version.epoll_uring_wake,
        registered_ring_fd: version.registered_ring_fd,
        multishot_timeouts: version.multishot_timeouts,
        user_allocated_ring_memory: version.user_allocated_ring_memory,
        async_cancel_op: version.async_cancel_op,
        socket_command_support: version.socket_command_support,
        sysctl_disable_support: version.sysctl_disable_support,
        direct_io_optimizations: version.direct_io_optimizations,
        msg_ring_speedup: version.msg_ring_speedup,
        native_bind_listen: version.native_bind_listen,
        improved_huge_pages: version.improved_huge_pages,
        async_discard: version.async_discard,
        minimum_timeout_waits: version.minimum_timeout_waits,
        absolute_timeouts: version.absolute_timeouts,
        incremental_buffer_consumption: version.incremental_buffer_consumption,
        registered_buffer_cloning: version.registered_buffer_cloning,
    }
}

/// The configuration `create_optimal_config` derives from the available
/// features: each available feature on, except submission queue polling,
/// deferred async work and user-allocated ring memory.
pub open spec fn optimal_config(f: AvailableFeatures) -> AdvancedConfig {
    AdvancedConfig {
        buffer_selection: f.buffer_selection,
        multi_shot: f.multi_shot,
        provided_buffers: f.provided_buffers,
        fast_poll: f.fast_poll,
        sq_poll: false,
        coop_taskrun: f.coop_taskrun,
        defer_taskrun: f.defer_taskrun,
        advanced_task_work: f.advanced_task_work,
        defer_async_work: false,
        send_zc_reporting: f.send_zc_reporting,
        multishot_completion_batching: f.multishot_completion_batching,
        epoll_uring_wake: f.epoll_uring_wake,
        registered_ring_fd: f.registered_ring_fd,
        multishot_timeouts: f.multishot_timeouts,
        user_allocated_ring_memory: false,
        async_cancel_op: f.async_cancel_op,
        socket_command_support: f.socket_command_support,
        direct_io_optimizations: f.direct_io_optimizations,
        msg_ring_speedup: f.msg_ring_speedup,
        native_bind_listen: f.native_bind_listen,
        improved_huge_pages: f.improved_huge_pages,
        async_discard: f.async_discard,
        minimum_timeout_waits: f.minimum_timeout_waits,
        absolute_timeouts: f.absolute_timeouts,
        incremental_buffer_consumption: f.incremental_buffer_consumption,
        registered_buffer_cloning: f.registered_buffer_cloning,
        sq_thread_cpu: None,
    }
}

/// What `FeatureDetector::parse_kernel_version` gives for a release string.
pub open spec fn parse_kernel_version_spec(s: Seq<char>) -> Result<(u32, u32, u32), Seq<char>> {
    let parts = split_fields(s, '.');
    if parts.len() < 2 {
        Err("Invalid kernel version format"@)
    } else if parse_u32_spec(parts[0]) is None {
        Err("Invalid major version number"@)
    } else if parse_u32_spec(parts[1]) is None {
        Err("Invalid minor version number"@)
    } else {
        let patch: u32 = if parts.len() > 2 {
            match parse_u32_spec(leading_digits(parts[2])) {
                Some(p) => p,
                None => 0,
            }
        } else {
            0
        };
        Ok((parse_u32_spec(parts[0])->0, parse_u32_spec(parts[1])->0, patch))
    }
}

/// The detector `FeatureDetector::new` gives for a release that parses as
/// the given version: that kernel version with the features it brings.
pub open spec fn detector_for(version: (u32, u32, u32)) -> FeatureDetector {
    let kernel_version = KernelVersion { major: version.0, minor: version.1, patch: version.2 };
    FeatureDetector { kernel_version, features: version_features(kernel_version) }
}

/// Kernel feature detection and capability probing.
///
/// Provides methods to detect which advanced io_uring features
/// are available on a kernel of a given release.
#[derive(Debug, Clone, Copy)]
pub struct FeatureDetector {
    /// Detected kernel version
    pub kernel_version: KernelVersion,
    /// Available features
    pub features: AvailableFeatures,
}

impl FeatureDetector {
    /// Creates a detector for the kernel whose release string (as `uname -r`
    /// prints it) is `release`, with the features that release brings.
    ///
    /// # Errors
    ///
    /// Returns an `InvalidData` I/O error when the release cannot be parsed.
    pub fn new(release: &str) -> (r: Result<Self, SaferRingError>)
        ensures
            match parse_kernel_version_spec(release@) {
                Ok((major, minor, patch)) => r matches Ok(d) && d.kernel_version == (KernelVersion {
                    major,
                    minor,
                    patch,
                }) && d.features == version_features(d.kernel_version),
                Err(msg) => r matches Err(SaferRingError::Io(e)) && e.kind == IoErrorKind::InvalidData
                    && e.message@ == "Failed to parse kernel version: "@ + msg,
            },
    {
        match Self::detect_kernel_version(release) {
            Ok(kernel_version) => {
                let features = Self::probe_features(&kernel_version);
                Ok(FeatureDetector { kernel_version, features })
            },
            Err(e) => Err(e),
        }
    }

    fn detect_kernel_version(release: &str) -> (r: Result<KernelVersion, SaferRingError>)
        ensures
            match parse_kernel_version_spec(release@) {
                Ok((major, minor, patch)) => r == Ok::<KernelVersion, SaferRingError>(
                    KernelVersion { major, minor, patch },
                ),
                Err(msg) => r matches Err(SaferRingError::Io(e)) && e.kind == IoErrorKind::InvalidData
                    && e.message@ == "Failed to parse kernel version: "@ + msg,
            },
    {
        match Self::parse_kernel_version(release) {
            Ok((major, minor, patch)) => Ok(KernelVersion { major, minor, patch }),
            Err(e) => {
                let mut message = String::from_str("Failed to parse kernel version: ");
                message.append(e.as_str());
                Err(SaferRingError::Io(IoError { kind: IoErrorKind::InvalidData, message }))
            },
        }
    }

    /// Parses a kernel release string into major, minor and patch numbers.
    ///
    /// The string is split at dots; the first two fields must be numbers.
    /// The patch number is the run of digits at the start of the third field
    /// (so `12-arch1` gives 12), and 0 when there is none or no third field.
    pub fn parse_kernel_version(version_str: &str) -> (r: Result<(u32, u32, u32), String>)
        ensures
            match r {
                Ok(v) => parse_kernel_version_spec(version_str@) == Ok::<(u32, u32, u32), Seq<char>>(v),
                Err(e) => parse_kernel_version_spec(version_str@) == Err::<(u32, u32, u32), Seq<char>>(e@),
            },
    {
        let chars = chars_of(version_str);
        let parts = split_chars(&chars, '.');
        let ghost rows = char_rows(parts@);
        proof {
            assert(rows.len() == parts.len());
        }
        if parts.len() < 2 {
            return Err(String::from_str("Invalid kernel version format"));
        }
        proof {
            assert(rows[0] == parts[0]@);
            assert(rows[1] == parts[1]@);
        }
        let major = match parse_u32(&parts[0]) {
            Some(v) => v,
            None => {
                return Err(String::from_str("Invalid major version number"));
            },
        };
        let minor = match parse_u32(&parts[1]) {
            Some(v) => v,
            None => {
                return Err(String::from_str("Invalid minor version number"));
            },
        };
        let patch: u32 = if parts.len() > 2 {
            proof {
                assert(rows[2] == parts[2]@);
            }
            let digits = take_leading_digits(&parts[2]);
            match parse_u32(&digits) {
                Some(p) => p,
                None => 0,
            }
        } else {
            0
        };
        Ok((major, minor, patch))
    }

    /// The features a kernel of the given version has, by the release that
    /// introduced each one. This conservative view may miss backported
    /// features but never reports a feature the release lacks.
    pub fn probe_features(kernel_version: &KernelVersion) -> (r: AvailableFeatures)
        ensures
            r == version_features(*kernel_version),
    {
        AvailableFeatures {
            buffer_selection: since_exec(kernel_version, 5, 13),
            multi_shot: since_exec(kernel_version, 5, 19),
            provided_buffers: since_exec(kernel_version, 5, 13),
            fast_poll: since_exec(kernel_version, 5, 7),
            sq_poll: since_exec(kernel_version, 5, 11),
            coop_taskrun: since_exec(kernel_version, 6, 0),
            defer_taskrun: since_exec(kernel_version, 6, 0),
            fixed_files: since_exec(kernel_version, 5, 1),
            fixed_buffers: since_exec(kernel_version, 5, 1),
            advanced_task_work: since_exec(kernel_version, 6, 1),
            defer_async_work: since_exec(kernel_version, 6, 1),
            send_zc_reporting: since_exec(kernel_version, 6, 2),
            multishot_completion_batching: since_exec(kernel_version, 6, 2),
            epoll_uring_wake: since_exec(kernel_version, 6, 2),
            registered_ring_fd: since_exec(kernel_version, 6, 3),
            multishot_timeouts: since_exec(kernel_version, 6, 4),
            user_allocated_ring_memory: since_exec(kernel_version, 6, 5),
            async_cancel_op: since_exec(kernel_version, 6, 6),
            socket_command_support: since_exec(kernel_version, 6, 6),
            sysctl_disable_support: since_exec(kernel_version, 6, 6),
            direct_io_optimizations: since_exec(kernel_version, 6, 6),
            msg_ring_speedup: since_exec(kernel_version, 6, 11),
            native_bind_listen: since_exec(kernel_version, 6, 11),
            improved_huge_pages: since_exec(kernel_version, 6, 12),
            async_discard: since_exec(kernel_version, 6, 12),
            minimum_timeout_waits: since_exec(kernel_version, 6, 12),
            absolute_timeouts: since_exec(kernel_version, 6, 12),
            incremental_buffer_consumption: since_exec(kernel_version, 6, 12),
            registered_buffer_cloning: since_exec(kernel_version, 6, 12),
        }
    }

    /// Whether the feature with the given name is available; `false` for a
    /// name that is not a feature.
    pub fn has_feature(&self, feature: &str) -> (r: bool)
        ensures
            r == flag_of(self.features.feature_table_spec(), feature@),
    {
        let table = self.features.feature_table();
        lookup_flag(&table, feature)
    }

    /// The names of all available features.
    pub fn available_features(&self) -> (r: Vec<&'static str>)
        ensures
            names_view(r@) == enabled_names_spec(self.features.feature_table_spec()),
            names_view(r@).no_duplicates(),
    {
        let table = self.features.feature_table();
        proof {
            lemma_available_names_distinct(self.features);
        }
        enabled_names(&table)
    }

    /// An `AdvancedConfig` with each available feature enabled, except
    /// submission queue polling (CPU usage), deferred async work and
    /// user-allocated ring memory, which need the application's cooperation.
    pub fn create_optimal_config(&self) -> (r: AdvancedConfig)
        ensures
            r == optimal_config(self.features),
    {
        AdvancedConfig {
            buffer_selection: self.features.buffer_selection,
            multi_shot: self.features.multi_shot,
            provided_buffers: self.features.provided_buffers,
            fast_poll: self.features.fast_poll,
            sq_poll: false,
            coop_taskrun: self.features.coop_taskrun,
            defer_taskrun: self.features.defer_taskrun,
            advanced_task_work: self.features.advanced_task_work,
            defer_async_work: false,
            send_zc_reporting: self.features.send_zc_reporting,
            multishot_completion_batching: self.features.multishot_completion_batching,
            epoll_uring_wake: self.features.epoll_uring_wake,
            registered_ring_fd: self.features.registered_ring_fd,
            multishot_timeouts: self.features.multishot_timeouts,
            user_allocated_ring_memory: false,
            async_cancel_op: self.features.async_cancel_op,
            socket_command_support: self.features.socket_command_support,
            direct_io_optimizations: self.features.direct_io_optimizations,
            msg_ring_speedup: self.features.msg_ring_speedup,
            native_bind_listen: self.features.native_bind_listen,
            improved_huge_pages: self.features.improved_huge_pages,
            async_discard: self.features.async_discard,
            minimum_timeout_waits: self.features.minimum_timeout_waits,
            absolute_timeouts: self.features.absolute_timeouts,
            incremental_buffer_consumption: self.features.incremental_buffer_consumption,
            registered_buffer_cloning: self.features.registered_buffer_cloning,
            sq_thread_cpu: None,
        }
    }

    /// Creates a detector that combines the release's features with what a
    /// direct probe of the kernel found, where one could be made (`None` when
    /// probing failed, in which case the release alone decides).
    ///
    /// # Errors
    ///
    /// Returns an `InvalidData` I/O error when the release cannot be parsed.
    pub fn new_with_probing(release: &str, probe: Option<&DirectProbeDetector>) -> (r: Result<Self, SaferRingError>)
        ensures
            match parse_kernel_version_spec(release@) {
                Ok((major, minor, patch)) => r matches Ok(d) && d.kernel_version == (KernelVersion {
                    major,
                    minor,
                    patch,
                }) && d.features == match probe {
                    Some(p) => merged_features(version_features(d.kernel_version), p.probe_spec()),
                    None => version_features(d.kernel_version),
                },
                Err(msg) => r matches Err(SaferRingError::Io(e)) && e.kind == IoErrorKind::InvalidData
                    && e.message@ == "Failed to parse kernel version: "@ + msg,
            },
    {
        let kernel_version = match Self::detect_kernel_version(release) {
            Ok(v) => v,
            Err(e) => {
                return Err(e);
            },
        };
        let version_features = Self::probe_features(&kernel_version);
        match probe {
            Some(p) => {
                let probed = p.probe_kernel_features();
                let features = Self::merge_feature_detection(version_features, probed);
                Ok(FeatureDetector { kernel_version, features })
            },
            None => Ok(FeatureDetector { kernel_version, features: version_features }),
        }
    }

    fn merge_feature_detection(version_features: AvailableFeatures, probe_features: AvailableFeatures) -> (r: AvailableFeatures)
        ensures
            r == merged_features(version_features, probe_features),
    {
        AvailableFeatures {
            buffer_selection: version_features.buffer_selection || probe_features.buffer_selection,
            multi_shot: version_features.multi_shot || probe_features.multi_shot,
            provided_buffers: version_features.provided_buffers || probe_features.provided_buffers,
            fast_poll: version_features.fast_poll || probe_features.fast_poll,
            sq_poll: version_features.sq_poll || probe_features.sq_poll,
            coop_taskrun: version_features.coop_taskrun || probe_features.coop_taskrun,
            defer_taskrun: version_features.defer_taskrun || probe_features.defer_taskrun,
            fixed_files: version_features.fixed_files || probe_features.fixed_files,
            fixed_buffers: version_features.fixed_buffers || probe_features.fixed_buffers,
            advanced_task_work: version_features.advanced_task_work,
            defer_async_work: version_features.defer_async_work,
            send_zc_reporting: version_features.send_zc_reporting,
            multishot_completion_batching: version_features.multishot_completion_batching,
            epoll_uring_wake: version_features.epoll_uring_wake,
            registered_ring_fd: version_features.registered_ring_fd,
            multishot_timeouts: version_features.multishot_timeouts,
            user_allocated_ring_memory: version_features.user_allocated_ring_memory,
            async_cancel_op: version_features.async_cancel_op,
            socket_command_support: version_features.socket_command_support,
            sysctl_disable_support: version_features.sysctl_disable_support,
            direct_io_optimizations: version_features.direct_io_optimizations,
            msg_ring_speedup: version_features.msg_ring_speedup,
            native_bind_listen: version_features.native_bind_listen,
            improved_huge_pages: version_features.improved_huge_pages,
            async_discard: version_features.async_discard,
            minimum_timeout_waits: version_features.minimum_timeout_waits,
            absolute_timeouts: version_features.absolute_timeouts,
            incremental_buffer_consumption: version_features.incremental_buffer_consumption,
            registered_buffer_cloning: version_features.registered_buffer_cloning,
        }
    }
}

/// Direct kernel probing for io_uring features: the opcodes that a probe
/// registered with the kernel reported as supported.
#[derive(Debug, Clone)]
pub struct DirectProbeDetector {
    supported_opcodes: Vec<u8>,
}

impl DirectProbeDetector {
    /// Whether the probe reported the opcode as supported.
    pub closed spec fn supports(&self, opcode: u8) -> bool {
        self.supported_opcodes@.contains(opcode)
    }

    /// The features the probe's opcodes indicate. Setup and runtime features
    /// cannot be seen in opcodes and are reported absent, except submission
    /// queue polling, which any working ring offers.
    pub open spec fn probe_spec(&self) -> AvailableFeatures {
        AvailableFeatures {
            fixed_files: self.supports(22) && self.supports(23),
            fixed_buffers: self.supports(22),
            fast_poll: self.supports(6),
            sq_poll: true,
            buffer_selection: self.supports(27),
            provided_buffers: self.supports(27),
            multi_shot: self.supports(13),
            coop_taskrun: false,
            defer_taskrun: false,
            advanced_task_work: false,
            defer_async_work: false,
            send_zc_reporting: self.supports(47),
            multishot_completion_batching: false,
            epoll_uring_wake: false,
            registered_ring_fd: false,
            multishot_timeouts: self.supports(11),
            user_allocated_ring_memory: false,
            async_cancel_op: self.supports(14),
            socket_command_support: false,
            sysctl_disable_support: false,
            direct_io_optimizations: false,
            msg_ring_speedup: false,
            native_bind_listen: false,
            improved_huge_pages: false,
            async_discard: false,
            minimum_timeout_waits: false,
            absolute_timeouts: false,
            incremental_buffer_consumption: false,
            registered_buffer_cloning: false,
        }
    }

    /// Creates a detector from the opcodes the kernel's probe reported as
    /// supported.
    pub fn new(supported_opcodes: Vec<u8>) -> (r: Self)
        ensures
            forall|op: u8| r.supports(op) <==> supported_opcodes@.contains(op),
    {
        DirectProbeDetector { supported_opcodes }
    }

    fn is_opcode_supported(&self, opcode: u8) -> (r: bool)
        ensures
            r == self.supports(opcode),
    {
        let mut i: usize = 0;
        while i < self.supported_opcodes.len()
            invariant
                i <= self.supported_opcodes.len(),
                forall|k: int| 0 <= k < i ==> self.supported_opcodes@[k] != opcode,
            decreases self.supported_opcodes.len() - i,
        {
            if self.supported_opcodes[i] == opcode {
                return true;
            }
            i = i + 1;
        }
        false
    }

    /// The features that the probed opcodes indicate.
    pub fn probe_kernel_features(&self) -> (r: AvailableFeatures)
        ensures
            r == self.probe_spec(),
    {
        let read = self.is_opcode_supported(opcode_read());
        let write = self.is_opcode_supported(opcode_write());
        let recv = self.is_opcode_supported(opcode_recv());
        AvailableFeatures {
            fixed_files: read && write,
            fixed_buffers: read,
            fast_poll: self.is_opcode_supported(opcode_poll_add()),
            sq_poll: true,
            buffer_selection: recv,
            provided_buffers: recv,
            multi_shot: self.is_opcode_supported(opcode_accept()),
            coop_taskrun: false,
            defer_taskrun: false,
            advanced_task_work: false,
            defer_async_work: false,
            send_zc_reporting: self.is_opcode_supported(opcode_send_zc()),
            multishot_completion_batching: false,
            epoll_uring_wake: false,
            registered_ring_fd: false,
            multishot_timeouts: self.is_opcode_supported(opcode_timeout()),
            user_allocated_ring_memory: false,
            async_cancel_op: self.is_opcode_supported(opcode_async_cancel()),
            socket_command_support: false,
            sysctl_disable_support: false,
            direct_io_optimizations: false,
            msg_ring_speedup: false,
            native_bind_listen: false,
            improved_huge_pages: false,
            async_discard: false,
            minimum_timeout_waits: false,
            absolute_timeouts: false,
            incremental_buffer_consumption: false,
            registered_buffer_cloning: false,
        }
    }
}

/// A newer kernel has every feature an older one has, so it never lists
/// fewer available features.
pub proof fn lemma_newer_kernel_keeps_features(older: KernelVersion, newer: KernelVersion)
    requires
        version_le(older, newer),
    ensures
        forall|i: int| 0 <= i < 29 ==> (#[trigger] version_features(older).feature_table_spec()[i]).0
            ==> version_features(newer).feature_table_spec()[i].0,
        enabled_names_spec(version_features(older).feature_table_spec()).len()
            <= enabled_names_spec(version_features(newer).feature_table_spec()).len(),
{
    let t1 = version_features(older).feature_table_spec();
    let t2 = version_features(newer).feature_table_spec();
    assert(t1.len() == 29 && t2.len() == 29);
    assert forall|i: int| 0 <= i < t1.len() && (#[trigger] t1[i]).0 implies t2[i].0 by {
    }
    lemma_enabled_names_len_mono(t1, t2);
}

/// No feature is listed twice among the available features.
pub proof fn lemma_available_names_distinct(f: AvailableFeatures)
    ensures
        enabled_names_spec(f.feature_table_spec()).no_duplicates(),
{
    let t = f.feature_table_spec();
    let n = feature_names_spec();
    lemma_feature_names_distinct();
    assert forall|i: int| 0 <= i < t.len() implies (#[trigger] t[i]).1 == n[i] by {
    }
    assert forall|i: int, j: int|
        0 <= i < t.len() && 0 <= j < t.len() && i != j implies (#[trigger] t[i]).1 != (#[trigger] t[j]).1 by {
        assert(t[i].1 == n[i] && t[j].1 == n[j]);
    }
    lemma_enabled_names_distinct(t);
}

/// The optimal configuration enables a feature exactly when the kernel has
/// it, for every feature but three that need the application's cooperation
/// and stay off whatever the kernel offers: submission queue polling,
/// deferred async work and user-allocated ring memory. No polling thread is
/// pinned to a CPU.
pub proof fn lemma_optimal_config_follows_features(f: AvailableFeatures)
    ensures
        optimal_config(f).buffer_selection == f.buffer_selection,
        optimal_config(f).multi_shot == f.multi_shot,
        optimal_config(f).provided_buffers == f.provided_buffers,
        optimal_config(f).fast_poll == f.fast_poll,
        optimal_config(f).coop_taskrun == f.coop_taskrun,
        optimal_config(f).defer_taskrun == f.defer_taskrun,
        optimal_config(f).advanced_task_work == f.advanced_task_work,
        optimal_config(f).send_zc_reporting == f.send_zc_reporting,
        optimal_config(f).multishot_completion_batching == f.multishot_completion_batching,
        optimal_config(f).epoll_uring_wake == f.epoll_uring_wake,
        optimal_config(f).registered_ring_fd == f.registered_ring_fd,
        optimal_config(f).multishot_timeouts == f.multishot_timeouts,
        optimal_config(f).async_cancel_op == f.async_cancel_op,
        optimal_config(f).socket_command_support == f.socket_command_support,
        optimal_config(f).direct_io_optimizations == f.direct_io_optimizations,
        optimal_config(f).msg_ring_speedup == f.msg_ring_speedup,
        optimal_config(f).native_bind_listen == f.native_bind_listen,
        optimal_config(f).improved_huge_pages == f.improved_huge_pages,
        optimal_config(f).async_discard == f.async_discard,
        optimal_config(f).minimum_timeout_waits == f.minimum_timeout_waits,
        optimal_config(f).absolute_timeouts == f.absolute_timeouts,
        optimal_config(f).incremental_buffer_consumption == f.incremental_buffer_consumption,
        optimal_config(f).registered_buffer_cloning == f.registered_buffer_cloning,
        !optimal_config(f).sq_poll,
        !optimal_config(f).defer_async_work,
        !optimal_config(f).user_allocated_ring_memory,
        optimal_config(f).sq_thread_cpu is None,
{
}

/// `has_feature` reports exactly the features `available_features` lists.
pub proof fn lemma_has_feature_iff_available(d: FeatureDetector, name: Seq<char>)
    ensures
        flag_of(d.features.feature_table_spec(), name) <==> enabled_names_spec(
            d.features.feature_table_spec(),
        ).contains(name),
{
    lemma_enabled_iff_flag(d.features.feature_table_spec(), name);
}

/// The configuration `create_optimal_config` derives enables only available
/// features, and `AdvancedConfig::validate` finds nothing to warn about in it.
pub proof fn lemma_optimal_config_is_safe(f: AvailableFeatures)
    ensures
        optimal_config(f).warnings_spec() == Seq::<Seq<char>>::empty(),
        !optimal_config(f).sq_poll,
        !optimal_config(f).defer_async_work,
        !optimal_config(f).user_allocated_ring_memory,
        optimal_config(f).multi_shot ==> f.multi_shot,
        optimal_config(f).buffer_selection ==> f.buffer_selection,
        optimal_config(f).registered_buffer_cloning ==> f.registered_buffer_cloning,
{
    assert(optimal_config(f).warnings_spec() =~= Seq::<Seq<char>>::empty());
}

/// Merging keeps every feature the release brings, and every basic feature
/// the probe found.
pub proof fn lemma_merge_keeps_features(version: AvailableFeatures, probed: AvailableFeatures)
    ensures
        version.buffer_selection ==> merged_features(version, probed).buffer_selection,
        version.multi_shot ==> merged_features(version, probed).multi_shot,
        version.provided_buffers ==> merged_features(version, probed).provided_buffers,
        version.fast_poll ==> merged_features(version, probed).fast_poll,
        version.sq_poll ==> merged_features(version, probed).sq_poll,
        version.coop_taskrun ==> merged_features(version, probed).coop_taskrun,
        version.defer_taskrun ==> merged_features(version, probed).defer_taskrun,
        version.fixed_files ==> merged_features(version, probed).fixed_files,
        version.fixed_buffers ==> merged_features(version, probed).fixed_buffers,
        version.advanced_task_work ==> merged_features(version, probed).advanced_task_work,
        version.defer_async_work ==> merged_features(version, probed).defer_async_work,
        version.send_zc_reporting ==> merged_features(version, probed).send_zc_reporting,
        version.multishot_completion_batching ==> merged_features(version, probed).multishot_completion_batching,
        version.epoll_uring_wake ==> merged_features(version, probed).epoll_uring_wake,
        version.registered_ring_fd ==> merged_features(version, probed).registered_ring_fd,
        version.multishot_timeouts ==> merged_features(version, probed).multishot_timeouts,
        version.user_allocated_ring_memory ==> merged_features(version, probed).user_allocated_ring_memory,
        version.async_cancel_op ==> merged_features(version, probed).async_cancel_op,
        version.socket_command_support ==> merged_features(version, probed).socket_command_support,
        version.sysctl_disable_support ==> merged_features(version, probed).sysctl_disable_support,
        version.direct_io_optimizations ==> merged_features(version, probed).direct_io_optimizations,
        version.msg_ring_speedup ==> merged_features(version, probed).msg_ring_speedup,
        version.native_bind_listen ==> merged_features(version, probed).native_bind_listen,
        version.improved_huge_pages ==> merged_features(version, probed).improved_huge_pages,
        version.async_discard ==> merged_features(version, probed).async_discard,
        version.minimum_timeout_waits ==> merged_features(version, probed).minimum_timeout_waits,
        version.absolute_timeouts ==> merged_features(version, probed).absolute_timeouts,
        version.incremental_buffer_consumption ==> merged_features(version, probed).incremental_buffer_consumption,
        version.registered_buffer_cloning ==> merged_features(version, probed).registered_buffer_cloning,
        probed.fixed_files ==> merged_features(version, probed).fixed_files,
        probed.fixed_buffers ==> merged_features(version, probed).fixed_buffers,
        probed.fast_poll ==> merged_features(version, probed).fast_poll,
        probed.sq_poll ==> merged_features(version, probed).sq_poll,
        probed.buffer_selection ==> merged_features(version, probed).buffer_selection,
        probed.provided_buffers ==> merged_features(version, probed).provided_buffers,
        probed.multi_shot ==> merged_features(version, probed).multi_shot,
        probed.coop_taskrun ==> merged_features(version, probed).coop_taskrun,
        probed.defer_taskrun ==> merged_features(version, probed).defer_taskrun,
{
}

} // verus!
