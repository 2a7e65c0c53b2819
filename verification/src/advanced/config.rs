//! Advanced configuration for io_uring operations.

use vstd::prelude::*;
use vstd::string::*;
use crate::names::{enabled_names, enabled_names_spec, names_view, table_view};

verus! {

/// Advanced features configuration for io_uring operations.
///
/// Features are disabled by default to ensure compatibility; the presets
/// and the `with_*` methods enable them selectively.
#[derive(Debug, Clone, Copy, PartialEq, Eq, Structural)]
pub struct AdvancedConfig {
    /// Enable buffer selection for read operations
    pub buffer_selection: bool,
    /// Enable multi-shot operations where supported
    pub multi_shot: bool,
    /// Enable provided buffers for zero-copy operations
    pub provided_buffers: bool,
    /// Enable fast poll for network operations
    pub fast_poll: bool,
    /// Enable submission queue polling
    pub sq_poll: bool,
    /// CPU to pin the kernel submission thread to
    pub sq_thread_cpu: Option<u32>,
    /// Enable cooperative task running
    pub coop_taskrun: bool,
    /// Enable task work defer
    pub defer_taskrun: bool,
    /// Enable advanced task work management (6.1+)
    pub advanced_task_work: bool,
    /// Enable deferred async work until GETEVENTS (6.1+)
    pub defer_async_work: bool,
    /// Enable zero-copy send reporting (6.2+)
    pub send_zc_reporting: bool,
    /// Enable completion batching for multishot operations (6.2+)
    pub multishot_completion_batching: bool,
    /// Enable EPOLL_URING_WAKE support (6.2+)
    pub epoll_uring_wake: bool,
    /// Enable io_uring_register() with registered ring fd (6.3+)
    pub registered_ring_fd: bool,
    /// Enable multishot timeout operations (6.4+)
    pub multishot_timeouts: bool,
    /// Enable user-allocated ring memory (6.5+)
    pub user_allocated_ring_memory: bool,
    /// Enable async operation cancellation (6.6+)
    pub async_cancel_op: bool,
    /// Enable socket command support (6.6+)
    pub socket_command_support: bool,
    /// Enable Direct I/O performance optimizations (6.6+)
    pub direct_io_optimizations: bool,
    /// Enable MSG_RING performance improvements (6.11+)
    pub msg_ring_speedup: bool,
    /// Enable native bind/listen operations (6.11+)
    pub native_bind_listen: bool,
    /// Enable improved huge page handling (6.12+)
    pub improved_huge_pages: bool,
    /// Enable async discard operations (6.12+)
    pub async_discard: bool,
    /// Enable minimum timeout waits (6.12+)
    pub minimum_timeout_waits: bool,
    /// Enable absolute timeouts with multiple clock sources (6.12+)
    pub absolute_timeouts: bool,
    /// Enable incremental buffer consumption (6.12+)
    pub incremental_buffer_consumption: bool,
    /// Enable registered buffer cloning (6.12+)
    pub registered_buffer_cloning: bool,
}

/// The configuration with every feature disabled.
pub open spec fn all_disabled() -> AdvancedConfig {
    AdvancedConfig {
        buffer_selection: false,
        multi_shot: false,
        provided_buffers: false,
        fast_poll: false,
        sq_poll: false,
        coop_taskrun: false,
        defer_taskrun: false,
        advanced_task_work: false,
        defer_async_work: false,
        send_zc_reporting: false,
        multishot_completion_batching: false,
        epoll_uring_wake: false,
        registered_ring_fd: false,
        multishot_timeouts: false,
        user_allocated_ring_memory: false,
        async_cancel_op: false,
        socket_command_support: false,
        direct_io_optimizations: false,
        msg_ring_speedup: false,
        native_bind_listen: false,
        improved_huge_pages: false,
        async_discard: false,
        minimum_timeout_waits: false,
        absolute_timeouts: false,
        incremental_buffer_consumption: false,
        registered_buffer_cloning: false,
        sq_thread_cpu: None,
    }
}

/// The text of each string in a list of strings.
pub open spec fn strings_view(v: Seq<String>) -> Seq<Seq<char>> {
    v.map_values(|s: String| s@)
}

/// One warning when the condition holds, none otherwise.
pub open spec fn warning_if(cond: bool, text: &str) -> Seq<Seq<char>> {
    if cond { seq![text@] } else { Seq::empty() }
}

fn push_warning_if(warnings: &mut Vec<String>, cond: bool, text: &'static str)
    ensures
        strings_view(final(warnings)@) == strings_view(old(warnings)@) + warning_if(cond, text),
{
    let ghost before = warnings@;
    if cond {
        warnings.push(text.to_owned());
        proof {
            assert(strings_view(warnings@) =~= strings_view(before) + seq![text@]);
        }
    } else {
        proof {
            assert(strings_view(warnings@) =~= strings_view(before) + Seq::<Seq<char>>::empty());
        }
    }
}

impl Default for AdvancedConfig {
    fn default() -> (r: Self)
        ensures
            r == all_disabled(),
    {
        AdvancedConfig {
            buffer_selection: false,
            multi_shot: false,
            provided_buffers: false,
            fast_poll: false,
            sq_poll: false,
            coop_taskrun: false,
            defer_taskrun: false,
            advanced_task_work: false,
            defer_async_work: false,
            send_zc_reporting: false,
            multishot_completion_batching: false,
            epoll_uring_wake: false,
            registered_ring_fd: false,
            multishot_timeouts: false,
            user_allocated_ring_memory: false,
            async_cancel_op: false,
            socket_command_support: false,
            direct_io_optimizations: false,
            msg_ring_speedup: false,
            native_bind_listen: false,
            improved_huge_pages: false,
            async_discard: false,
            minimum_timeout_waits: false,
            absolute_timeouts: false,
            incremental_buffer_consumption: false,
            registered_buffer_cloning: false,
            sq_thread_cpu: None,
        }
    }
}

impl AdvancedConfig {
    /// The names of the enabled features, in declaration order.
    pub open spec fn enabled_features_spec(self) -> Seq<Seq<char>> {
        enabled_names_spec(self.feature_table_spec())
    }

    /// Each feature flag paired with its name, in declaration order.
    pub open spec fn feature_table_spec(self) -> Seq<(bool, Seq<char>)> {
        seq![
            (self.buffer_selection, "buffer_selection"@),
            (self.multi_shot, "multi_shot"@),
            (self.provided_buffers, "provided_buffers"@),
            (self.fast_poll, "fast_poll"@),
            (self.sq_poll, "sq_poll"@),
            (self.coop_taskrun, "coop_taskrun"@),
            (self.defer_taskrun, "defer_taskrun"@),
            (self.advanced_task_work, "advanced_task_work"@),
            (self.defer_async_work, "defer_async_work"@),
            (self.send_zc_reporting, "send_zc_reporting"@),
            (self.multishot_completion_batching, "multishot_completion_batching"@),
            (self.epoll_uring_wake, "epoll_uring_wake"@),
            (self.registered_ring_fd, "registered_ring_fd"@),
            (self.multishot_timeouts, "multishot_timeouts"@),
            (self.user_allocated_ring_memory, "user_allocated_ring_memory"@),
            (self.async_cancel_op, "async_cancel_op"@),
            (self.socket_command_support, "socket_command_support"@),
            (self.direct_io_optimizations, "direct_io_optimizations"@),
            (self.msg_ring_speedup, "msg_ring_speedup"@),
            (self.native_bind_listen, "native_bind_listen"@),
            (self.improved_huge_pages, "improved_huge_pages"@),
            (self.async_discard, "async_discard"@),
            (self.minimum_timeout_waits, "minimum_timeout_waits"@),
            (self.absolute_timeouts, "absolute_timeouts"@),
            (self.incremental_buffer_consumption, "incremental_buffer_consumption"@),
            (self.registered_buffer_cloning, "registered_buffer_cloning"@),
        ]
    }

    fn feature_table(&self) -> (r: Vec<(bool, &'static str)>)
        ensures
            table_view(r@) == self.feature_table_spec(),
    {
        let t = vec![
            (self.buffer_selection, "buffer_selection"),
            (self.multi_shot, "multi_shot"),
            (self.provided_buffers, "provided_buffers"),
            (self.fast_poll, "fast_poll"),
            (self.sq_poll, "sq_poll"),
            (self.coop_taskrun, "coop_taskrun"),
            (self.defer_taskrun, "defer_taskrun"),
            (self.advanced_task_work, "advanced_task_work"),
            (self.defer_async_work, "defer_async_work"),
            (self.send_zc_reporting, "send_zc_reporting"),
            (self.multishot_completion_batching, "multishot_completion_batching"),
            (self.epoll_uring_wake, "epoll_uring_wake"),
            (self.registered_ring_fd, "registered_ring_fd"),
            (self.multishot_timeouts, "multishot_timeouts"),
            (self.user_allocated_ring_memory, "user_allocated_ring_memory"),
            (self.async_cancel_op, "async_cancel_op"),
            (self.socket_command_support, "socket_command_support"),
            (self.direct_io_optimizations, "direct_io_optimizations"),
            (self.msg_ring_speedup, "msg_ring_speedup"),
            (self.native_bind_listen, "native_bind_listen"),
            (self.improved_huge_pages, "improved_huge_pages"),
            (self.async_discard, "async_discard"),
            (self.minimum_timeout_waits, "minimum_timeout_waits"),
            (self.absolute_timeouts, "absolute_timeouts"),
            (self.incremental_buffer_consumption, "incremental_buffer_consumption"),
            (self.registered_buffer_cloning, "registered_buffer_cloning"),
        ];
        proof { assert(table_view(t@) =~= self.feature_table_spec()); }
        t
    }

    /// The warnings `validate` reports for this configuration, in order.
    pub open spec fn warnings_spec(self) -> Seq<Seq<char>> {
        warning_if(self.sq_poll && self.defer_taskrun, "sq_poll and defer_taskrun may conflict on some kernels")
        + warning_if(self.defer_async_work && !self.advanced_task_work, "defer_async_work requires advanced_task_work for stability")
        + warning_if(self.user_allocated_ring_memory, "user_allocated_ring_memory requires custom memory management")
        + warning_if(self.sq_poll && self.sq_thread_cpu is None, "sq_poll without CPU affinity may cause performance issues")
        + warning_if(self.intensive_count() > 1, "Multiple resource-intensive features enabled")
    }

    /// How many of the resource-intensive features are enabled.
    pub open spec fn intensive_count(self) -> nat {
        (if self.sq_poll { 1nat } else { 0nat })
        + (if self.defer_async_work { 1nat } else { 0nat })
        + (if self.user_allocated_ring_memory { 1nat } else { 0nat })
    }

    /// The stable preset, as the specification describes it.
    pub open spec fn stable_spec() -> Self {
        AdvancedConfig {
            buffer_selection: true,
            fast_poll: true,
            provided_buffers: true,
            coop_taskrun: true,
            defer_taskrun: true,
            ..all_disabled()
        }
    }

    /// The performance preset, as the specification describes it.
    pub open spec fn performance_spec() -> Self {
        AdvancedConfig {
            multi_shot: true,
            advanced_task_work: true,
            send_zc_reporting: true,
            multishot_completion_batching: true,
            async_cancel_op: true,
            direct_io_optimizations: true,
            ..Self::stable_spec()
        }
    }

    /// The development preset, as the specification describes it.
    pub open spec fn development_spec() -> Self {
        AdvancedConfig {
            buffer_selection: true,
            multi_shot: true,
            provided_buffers: true,
            fast_poll: true,
            coop_taskrun: true,
            defer_taskrun: true,
            ..all_disabled()
        }
    }

    /// Create a new AdvancedConfig with all features disabled.
    pub fn new() -> (r: Self)
        ensures
            r == all_disabled(),
    {
        Self::default()
    }

    /// Create a configuration with stable, well-tested features enabled.
    pub fn stable() -> (r: Self)
        ensures
            r == Self::stable_spec(),
    {
        AdvancedConfig {
            buffer_selection: true,
            fast_poll: true,
            provided_buffers: true,
            coop_taskrun: true,
            defer_taskrun: true,
            sq_poll: false,
            defer_async_work: false,
            user_allocated_ring_memory: false,
            ..Self::default()
        }
    }

    /// Create a performance-optimized configuration.
    pub fn performance() -> (r: Self)
        ensures
            r == Self::performance_spec(),
    {
        Self::stable()
            .with_multi_shot(true)
            .with_advanced_task_work(true)
            .with_send_zc_reporting(true)
            .with_multishot_completion_batching(true)
            .with_async_cancel_op(true)
            .with_direct_io_optimizations(true)
    }

    /// Create a development-friendly configuration.
    pub fn development() -> (r: Self)
        ensures
            r == Self::development_spec(),
    {
        AdvancedConfig {
            buffer_selection: true,
            multi_shot: true,
            provided_buffers: true,
            fast_poll: true,
            coop_taskrun: true,
            defer_taskrun: true,
            sq_poll: false,
            defer_async_work: false,
            ..Self::default()
        }
    }

    /// Sets whether `buffer_selection` is enabled.
    pub fn with_buffer_selection(self, enabled: bool) -> (r: Self)
        ensures
            r == (AdvancedConfig { buffer_selection: enabled, ..self }),
    {
        let mut c = self;
        c.buffer_selection = enabled;
        c
    }

    /// Sets whether `multi_shot` is enabled.
    pub fn with_multi_shot(self, enabled: bool) -> (r: Self)
        ensures
            r == (AdvancedConfig { multi_shot: enabled, ..self }),
    {
        let mut c = self;
        c.multi_shot = enabled;
        c
    }

    /// Sets whether `provided_buffers` is enabled.
    pub fn with_provided_buffers(self, enabled: bool) -> (r: Self)
        ensures
            r == (AdvancedConfig { provided_buffers: enabled, ..self }),
    {
        let mut c = self;
        c.provided_buffers = enabled;
        c
    }

    /// Sets whether `fast_poll` is enabled.
    pub fn with_fast_poll(self, enabled: bool) -> (r: Self)
        ensures
            r == (AdvancedConfig { fast_poll: enabled, ..self }),
    {
        let mut c = self;
        c.fast_poll = enabled;
        c
    }

    /// Enables or disables submission queue polling; the CPU affinity is kept
    /// only when polling is enabled.
    pub fn with_sq_poll(self, enabled: bool, cpu: Option<u32>) -> (r: Self)
        ensures
            r == (AdvancedConfig { sq_poll: enabled, sq_thread_cpu: if enabled { cpu } else { None }, ..self }),
    {
        let mut c = self;
        c.sq_poll = enabled;
        c.sq_thread_cpu = if enabled { cpu } else { None };
        c
    }

    /// Sets whether `coop_taskrun` is enabled.
    pub fn with_coop_taskrun(self, enabled: bool) -> (r: Self)
        ensures
            r == (AdvancedConfig { coop_taskrun: enabled, ..self }),
    {
        let mut c = self;
        c.coop_taskrun = enabled;
        c
    }

    /// Sets whether `defer_taskrun` is enabled.
    pub fn with_defer_taskrun(self, enabled: bool) -> (r: Self)
        ensures
            r == (AdvancedConfig { defer_taskrun: enabled, ..self }),
    {
        let mut c = self;
        c.defer_taskrun = enabled;
        c
    }

    /// Sets whether `advanced_task_work` is enabled.
    pub fn with_advanced_task_work(self, enabled: bool) -> (r: Self)
        ensures
            r == (AdvancedConfig { advanced_task_work: enabled, ..self }),
    {
        let mut c = self;
        c.advanced_task_work = enabled;
        c
    }

    /// Sets whether `send_zc_reporting` is enabled.
    pub fn with_send_zc_reporting(self, enabled: bool) -> (r: Self)
        ensures
            r == (AdvancedConfig { send_zc_reporting: enabled, ..self }),
    {
        let mut c = self;
        c.send_zc_reporting = enabled;
        c
    }

    /// Sets whether `multishot_completion_batching` is enabled.
    pub fn with_multishot_completion_batching(self, enabled: bool) -> (r: Self)
        ensures
            r == (AdvancedConfig { multishot_completion_batching: enabled, ..self }),
    {
        let mut c = self;
        c.multishot_completion_batching = enabled;
        c
    }

    /// Sets whether `async_cancel_op` is enabled.
    pub fn with_async_cancel_op(self, enabled: bool) -> (r: Self)
        ensures
            r == (AdvancedConfig { async_cancel_op: enabled, ..self }),
    {
        let mut c = self;
        c.async_cancel_op = enabled;
        c
    }

    /// Sets whether `direct_io_optimizations` is enabled.
    pub fn with_direct_io_optimizations(self, enabled: bool) -> (r: Self)
        ensures
            r == (AdvancedConfig { direct_io_optimizations: enabled, ..self }),
    {
        let mut c = self;
        c.direct_io_optimizations = enabled;
        c
    }

    /// Get a list of all enabled features, in declaration order.
    pub fn enabled_features(&self) -> (r: Vec<&'static str>)
        ensures
            names_view(r@) == self.enabled_features_spec(),
    {
        let table = self.feature_table();
        let features = enabled_names(&table);
        features
    }

    /// Count the number of enabled features.
    pub fn feature_count(&self) -> (r: usize)
        ensures
            r == self.enabled_features_spec().len(),
    {
        let f = self.enabled_features();
        proof {
            assert(names_view(f@).len() == f@.len());
        }
        f.len()
    }

    /// Validate the configuration, returning the warnings that apply.
    pub fn validate(&self) -> (r: Vec<String>)
        ensures
            strings_view(r@) == self.warnings_spec(),
    {
        let mut warnings: Vec<String> = Vec::new();
        proof {
            assert(strings_view(warnings@) =~= Seq::<Seq<char>>::empty());
        }
        push_warning_if(&mut warnings, self.sq_poll && self.defer_taskrun, "sq_poll and defer_taskrun may conflict on some kernels");
        push_warning_if(&mut warnings, self.defer_async_work && !self.advanced_task_work, "defer_async_work requires advanced_task_work for stability");
        push_warning_if(&mut warnings, self.user_allocated_ring_memory, "user_allocated_ring_memory requires custom memory management");
        push_warning_if(&mut warnings, self.sq_poll && self.sq_thread_cpu.is_none(), "sq_poll without CPU affinity may cause performance issues");
        let intensive: u32 = (if self.sq_poll { 1u32 } else { 0u32 })
            + (if self.defer_async_work { 1u32 } else { 0u32 })
            + (if self.user_allocated_ring_memory { 1u32 } else { 0u32 });
        push_warning_if(&mut warnings, intensive > 1, "Multiple resource-intensive features enabled");
        proof {
            assert(strings_view(warnings@) =~= self.warnings_spec());
        }
        warnings
    }
}

/// Every preset enables at least the features the stable preset enables,
/// except that the development preset does not differ from stable on them
/// either; the performance preset extends the stable one.
pub proof fn lemma_performance_extends_stable()
    ensures
        ({
            let s = AdvancedConfig::stable_spec();
            let p = AdvancedConfig::performance_spec();
            (s.buffer_selection ==> p.buffer_selection) && (s.fast_poll ==> p.fast_poll)
                && (s.provided_buffers ==> p.provided_buffers) && (s.coop_taskrun ==> p.coop_taskrun)
                && (s.defer_taskrun ==> p.defer_taskrun) && !p.sq_poll && !p.defer_async_work
                && !p.user_allocated_ring_memory
        }),
{
}


/// A joined list holds a text exactly when one of its parts does.
proof fn lemma_concat_contains(x: Seq<Seq<char>>, y: Seq<Seq<char>>, e: Seq<char>)
    ensures
        (x + y).contains(e) <==> (x.contains(e) || y.contains(e)),
{
    let xy = x + y;
    if xy.contains(e) {
        let k = choose|k: int| 0 <= k < xy.len() && xy[k] == e;
        if k < x.len() {
            assert(x[k] == e);
        } else {
            assert(y[k - x.len()] == e);
        }
    }
    if x.contains(e) {
        let k = choose|k: int| 0 <= k < x.len() && x[k] == e;
        assert(xy[k] == e);
    }
    if y.contains(e) {
        let k = choose|k: int| 0 <= k < y.len() && y[k] == e;
        assert(xy[k + x.len()] == e);
    }
}

/// A conditional warning holds a text exactly when the condition holds and
/// the text is the warning's.
proof fn lemma_warning_if_contains(cond: bool, text: &str, e: Seq<char>)
    ensures
        warning_if(cond, text).contains(e) <==> (cond && text@ == e),
{
    if cond {
        assert(warning_if(cond, text)[0] == text@);
    }
}

/// Which texts the warnings of a configuration hold.
proof fn lemma_warnings_contain(c: AdvancedConfig, e: Seq<char>)
    ensures
        c.warnings_spec().contains(e) <==> (
            (c.sq_poll && c.defer_taskrun && "sq_poll and defer_taskrun may conflict on some kernels"@ == e)
            || (c.defer_async_work && !c.advanced_task_work && "defer_async_work requires advanced_task_work for stability"@ == e)
            || (c.user_allocated_ring_memory && "user_allocated_ring_memory requires custom memory management"@ == e)
            || (c.sq_poll && c.sq_thread_cpu is None && "sq_poll without CPU affinity may cause performance issues"@ == e)
            || (c.intensive_count() > 1 && "Multiple resource-intensive features enabled"@ == e)
        ),
{
    let a = warning_if(c.sq_poll && c.defer_taskrun, "sq_poll and defer_taskrun may conflict on some kernels");
    let b = warning_if(c.defer_async_work && !c.advanced_task_work, "defer_async_work requires advanced_task_work for stability");
    let u = warning_if(c.user_allocated_ring_memory, "user_allocated_ring_memory requires custom memory management");
    let p = warning_if(c.sq_poll && c.sq_thread_cpu is None, "sq_poll without CPU affinity may cause performance issues");
    let m = warning_if(c.intensive_count() > 1, "Multiple resource-intensive features enabled");
    assert(c.warnings_spec() == a + b + u + p + m);
    lemma_concat_contains(a, b, e);
    lemma_concat_contains(a + b, u, e);
    lemma_concat_contains(a + b + u, p, e);
    lemma_concat_contains(a + b + u + p, m, e);
    lemma_warning_if_contains(c.sq_poll && c.defer_taskrun, "sq_poll and defer_taskrun may conflict on some kernels", e);
    lemma_warning_if_contains(c.defer_async_work && !c.advanced_task_work, "defer_async_work requires advanced_task_work for stability", e);
    lemma_warning_if_contains(c.user_allocated_ring_memory, "user_allocated_ring_memory requires custom memory management", e);
    lemma_warning_if_contains(c.sq_poll && c.sq_thread_cpu is None, "sq_poll without CPU affinity may cause performance issues", e);
    lemma_warning_if_contains(c.intensive_count() > 1, "Multiple resource-intensive features enabled", e);
}

/// Each warning of `validate` is given exactly when its risky combination
/// is configured: polling together with deferred task running; deferred
/// async work without advanced task work; user-allocated ring memory;
/// polling without a CPU for its thread; and two or more of the
/// resource-intensive features (polling, deferred async work,
/// user-allocated ring memory).
pub proof fn lemma_warning_conditions(c: AdvancedConfig)
    ensures
        c.warnings_spec().contains("sq_poll and defer_taskrun may conflict on some kernels"@) <==> (c.sq_poll && c.defer_taskrun),
        c.warnings_spec().contains("defer_async_work requires advanced_task_work for stability"@) <==> (c.defer_async_work && !c.advanced_task_work),
        c.warnings_spec().contains("user_allocated_ring_memory requires custom memory management"@) <==> c.user_allocated_ring_memory,
        c.warnings_spec().contains("sq_poll without CPU affinity may cause performance issues"@) <==> (c.sq_poll && c.sq_thread_cpu is None),
        c.warnings_spec().contains("Multiple resource-intensive features enabled"@) <==> ((c.sq_poll && c.defer_async_work) || (c.sq_poll
            && c.user_allocated_ring_memory) || (c.defer_async_work && c.user_allocated_ring_memory)),
{
    reveal_strlit("sq_poll and defer_taskrun may conflict on some kernels");
    reveal_strlit("defer_async_work requires advanced_task_work for stability");
    reveal_strlit("user_allocated_ring_memory requires custom memory management");
    reveal_strlit("sq_poll without CPU affinity may cause performance issues");
    reveal_strlit("Multiple resource-intensive features enabled");
    assert("sq_poll and defer_taskrun may conflict on some kernels"@.len() == 54);
    assert("defer_async_work requires advanced_task_work for stability"@.len() == 58);
    assert("user_allocated_ring_memory requires custom memory management"@.len() == 60);
    assert("sq_poll without CPU affinity may cause performance issues"@.len() == 57);
    assert("Multiple resource-intensive features enabled"@.len() == 44);
    lemma_warnings_contain(c, "sq_poll and defer_taskrun may conflict on some kernels"@);
    lemma_warnings_contain(c, "defer_async_work requires advanced_task_work for stability"@);
    lemma_warnings_contain(c, "user_allocated_ring_memory requires custom memory management"@);
    lemma_warnings_contain(c, "sq_poll without CPU affinity may cause performance issues"@);
    lemma_warnings_contain(c, "Multiple resource-intensive features enabled"@);
}

} // verus!
