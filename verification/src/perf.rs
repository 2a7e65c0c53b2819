//! Performance profiling utilities: operation timing counters and memory
//! usage tracking. Durations are whole nanoseconds.

use vstd::prelude::*;
use vstd::string::*;
use crate::text::str_eq;

verus! {

/// The wall clock's `Instant`, opaque to the proofs.
#[verifier::external_type_specification]
#[verifier::external_body]
pub struct ExInstant(std::time::Instant);

/// `Instant::now`: the current moment; nothing is known of it.
#[verifier::external_body]
pub(crate) fn instant_now() -> std::time::Instant {
    std::time::Instant::now()
}

/// `Instant::elapsed` in whole nanoseconds (`Duration::as_nanos`): how long
/// ago the moment was; it depends on the clock, so nothing is stated. It
/// does not panic and opens no invariant of the proofs.
#[verifier::external_body]
pub(crate) fn nanos_since(start: &std::time::Instant) -> u128
    opens_invariants none
    no_unwind
{
    start.elapsed().as_nanos()
}

/// A count held in `u128`, saturated at `u64::MAX`.
pub fn saturate_u64(n: u128) -> (r: u64)
    ensures
        r == (if n > u64::MAX { u64::MAX } else { n as u64 }),
    opens_invariants none
    no_unwind
{
    if n > u64::MAX as u128 {
        u64::MAX
    } else {
        n as u64
    }
}

/// A counter's state: how many operations were timed, their total time,
/// and the shortest and longest (`u64::MAX` and 0 before any).
pub struct CounterState {
    /// Number of recorded operations
    pub count: u64,
    /// Sum of their durations, wrapping
    pub total: u64,
    /// Shortest duration, `u64::MAX` before any
    pub min: u64,
    /// Longest duration, 0 before any
    pub max: u64,
}

/// The state of a counter that has recorded nothing.
pub open spec fn empty_counter() -> CounterState {
    CounterState { count: 0, total: 0, min: u64::MAX, max: 0 }
}

/// The state after recording one more operation of `nanos` nanoseconds.
pub open spec fn record_spec(s: CounterState, nanos: u64) -> CounterState {
    CounterState {
        count: (if s.count == u64::MAX { 0 } else { s.count + 1 }) as u64,
        total: ((s.total + nanos) % 0x1_0000_0000_0000_0000) as u64,
        min: if nanos < s.min { nanos } else { s.min },
        max: if nanos > s.max { nanos } else { s.max },
    }
}

/// Performance counter for timing operations.
#[derive(Debug)]
pub struct PerfCounter {
    count: u64,
    total_time_ns: u64,
    min_time_ns: u64,
    max_time_ns: u64,
}

/// Statistics from a performance counter, in nanoseconds.
#[derive(Debug, Clone, Copy, PartialEq, Eq, Structural)]
pub struct PerfStats {
    /// Number of operations recorded
    pub count: u64,
    /// Total time spent
    pub total_time: u64,
    /// Average time per operation (0 before any)
    pub avg_time: u64,
    /// Minimum operation time (0 before any)
    pub min_time: u64,
    /// Maximum operation time
    pub max_time: u64,
}

/// The statistics a counter in the given state reports.
pub open spec fn stats_spec(s: CounterState) -> PerfStats {
    PerfStats {
        count: s.count,
        total_time: s.total,
        avg_time: if s.count > 0 { (s.total / s.count) as u64 } else { 0 },
        min_time: if s.min == u64::MAX { 0 } else { s.min },
        max_time: s.max,
    }
}

impl PerfCounter {
    /// The counter's state.
    pub closed spec fn state(&self) -> CounterState {
        CounterState { count: self.count, total: self.total_time_ns, min: self.min_time_ns, max: self.max_time_ns }
    }

    /// Creates a counter that has recorded nothing.
    pub fn new() -> (r: Self)
        ensures
            r.state() == empty_counter(),
    {
        PerfCounter { count: 0, total_time_ns: 0, min_time_ns: u64::MAX, max_time_ns: 0 }
    }

    /// Records one operation that took `nanos` nanoseconds.
    pub fn record(&mut self, nanos: u64)
        ensures
            final(self).state() == record_spec(old(self).state(), nanos),
        opens_invariants none
        no_unwind
    {
        self.count = if self.count == u64::MAX { 0 } else { self.count + 1 };
        self.total_time_ns = if nanos <= u64::MAX - self.total_time_ns {
            self.total_time_ns + nanos
        } else {
            nanos - (u64::MAX - self.total_time_ns) - 1
        };
        if nanos < self.min_time_ns {
            self.min_time_ns = nanos;
        }
        if nanos > self.max_time_ns {
            self.max_time_ns = nanos;
        }
    }

    /// The counter's statistics.
    pub fn stats(&self) -> (r: PerfStats)
        ensures
            r == stats_spec(self.state()),
    {
        let avg_ns = if self.count > 0 { self.total_time_ns / self.count } else { 0 };
        PerfStats {
            count: self.count,
            total_time: self.total_time_ns,
            avg_time: avg_ns,
            min_time: if self.min_time_ns == u64::MAX { 0 } else { self.min_time_ns },
            max_time: self.max_time_ns,
        }
    }

    /// Forgets every recorded operation.
    pub fn reset(&mut self)
        ensures
            final(self).state() == empty_counter(),
    {
        self.count = 0;
        self.total_time_ns = 0;
        self.min_time_ns = u64::MAX;
        self.max_time_ns = 0;
    }
}

impl Default for PerfCounter {
    fn default() -> (r: Self)
        ensures
            r.state() == empty_counter(),
    {
        Self::new()
    }
}

/// Times an operation: the time from its creation to its drop is recorded
/// in the counter.
pub struct PerfTimer<'a> {
    counter: &'a mut PerfCounter,
    start: std::time::Instant,
}

impl<'a> PerfTimer<'a> {
    /// The state of the counter the timer records into.
    pub closed spec fn counter_state(&self) -> CounterState {
        self.counter.state()
    }

    /// Starts timing for the given counter.
    pub fn new(counter: &'a mut PerfCounter) -> (r: Self)
        ensures
            r.counter_state() == old(counter).state(),
    {
        PerfTimer { counter, start: instant_now() }
    }

    /// Records the time since the timer started as one operation; how long
    /// that was, the clock decides.
    pub fn finish(&mut self)
        ensures
            exists|nanos: u64| final(self).counter_state() == record_spec(old(self).counter_state(), nanos),
        opens_invariants none
        no_unwind
    {
        let nanos = saturate_u64(nanos_since(&self.start));
        self.counter.record(nanos);
        assert(self.counter_state() == record_spec(old(self).counter_state(), nanos));
    }
}

impl<'a> Drop for PerfTimer<'a> {
    /// Records the elapsed time in the counter.
    fn drop(&mut self)
        opens_invariants none
        no_unwind
    {
        self.finish();
    }
}

/// A memory tracker's state.
pub struct MemoryState {
    /// Bytes currently allocated
    pub current: usize,
    /// Most bytes allocated at once
    pub peak: usize,
    /// Number of allocations, wrapping
    pub allocs: u64,
    /// Number of deallocations, wrapping
    pub deallocs: u64,
}

/// Memory usage tracker.
#[derive(Debug)]
pub struct MemoryTracker {
    allocated: usize,
    peak: usize,
    total_allocs: u64,
    total_deallocs: u64,
}

/// Memory usage statistics.
#[derive(Debug, Clone, Copy, PartialEq, Eq, Structural)]
pub struct MemoryStats {
    /// Current allocated bytes
    pub current: usize,
    /// Peak allocated bytes
    pub peak: usize,
    /// Total number of allocations
    pub total_allocs: u64,
    /// Total number of deallocations
    pub total_deallocs: u64,
}

impl MemoryTracker {
    /// The tracker's state.
    pub closed spec fn state(&self) -> MemoryState {
        MemoryState { current: self.allocated, peak: self.peak, allocs: self.total_allocs, deallocs: self.total_deallocs }
    }

    /// Creates a tracker that has seen nothing.
    pub fn new() -> (r: Self)
        ensures
            r.state() == (MemoryState { current: 0, peak: 0, allocs: 0, deallocs: 0 }),
    {
        MemoryTracker { allocated: 0, peak: 0, total_allocs: 0, total_deallocs: 0 }
    }

    /// Records an allocation of `size` bytes; the peak rises to the new
    /// usage when it is higher.
    pub fn record_alloc(&mut self, size: usize)
        requires
            old(self).state().current + size <= usize::MAX,
        ensures
            final(self).state().current == old(self).state().current + size,
            final(self).state().peak == if old(self).state().current + size > old(self).state().peak {
                (old(self).state().current + size) as usize
            } else {
                old(self).state().peak
            },
            final(self).state().allocs == (old(self).state().allocs + 1) % 0x1_0000_0000_0000_0000,
            final(self).state().deallocs == old(self).state().deallocs,
    {
        self.allocated = self.allocated + size;
        self.total_allocs = self.total_allocs.wrapping_add(1);
        if self.allocated > self.peak {
            self.peak = self.allocated;
        }
    }

    /// Records a deallocation of `size` bytes; the peak stays.
    pub fn record_dealloc(&mut self, size: usize)
        ensures
            final(self).state().current == if size <= old(self).state().current {
                (old(self).state().current - size) as usize
            } else {
                (old(self).state().current - size + usize::MAX + 1) as usize
            },
            final(self).state().peak == old(self).state().peak,
            final(self).state().allocs == old(self).state().allocs,
            final(self).state().deallocs == (old(self).state().deallocs + 1) % 0x1_0000_0000_0000_0000,
    {
        self.allocated = self.allocated.wrapping_sub(size);
        self.total_deallocs = self.total_deallocs.wrapping_add(1);
    }

    /// Bytes currently allocated.
    pub fn current_usage(&self) -> (r: usize)
        ensures
            r == self.state().current,
    {
        self.allocated
    }

    /// Most bytes allocated at once.
    pub fn peak_usage(&self) -> (r: usize)
        ensures
            r == self.state().peak,
    {
        self.peak
    }

    /// The tracker's statistics.
    pub fn stats(&self) -> (r: MemoryStats)
        ensures
            r == (MemoryStats {
                current: self.state().current,
                peak: self.state().peak,
                total_allocs: self.state().allocs,
                total_deallocs: self.state().deallocs,
            }),
    {
        MemoryStats {
            current: self.allocated,
            peak: self.peak,
            total_allocs: self.total_allocs,
            total_deallocs: self.total_deallocs,
        }
    }

    /// Forgets everything recorded.
    pub fn reset(&mut self)
        ensures
            final(self).state() == (MemoryState { current: 0, peak: 0, allocs: 0, deallocs: 0 }),
    {
        self.allocated = 0;
        self.peak = 0;
        self.total_allocs = 0;
        self.total_deallocs = 0;
    }
}

impl Default for MemoryTracker {
    fn default() -> (r: Self)
        ensures
            r.state() == (MemoryState { current: 0, peak: 0, allocs: 0, deallocs: 0 }),
    {
        Self::new()
    }
}

/// Named performance counters and a memory tracker.
pub struct PerfRegistry {
    names: Vec<String>,
    counters: Vec<PerfCounter>,
    memory_tracker: MemoryTracker,
}

/// The states of a list of counters.
pub open spec fn counter_states(v: Seq<PerfCounter>) -> Seq<CounterState> {
    v.map_values(|c: PerfCounter| c.state())
}

/// The texts of a list of strings.
pub open spec fn texts(v: Seq<String>) -> Seq<Seq<char>> {
    v.map_values(|s: String| s@)
}

impl PerfRegistry {
    /// The counters' names, in the order they were first asked for.
    pub closed spec fn names(&self) -> Seq<Seq<char>> {
        texts(self.names@)
    }

    /// The counters' states, in the same order as their names.
    pub closed spec fn states(&self) -> Seq<CounterState> {
        counter_states(self.counters@)
    }

    /// The memory tracker's state.
    pub closed spec fn memory(&self) -> MemoryState {
        self.memory_tracker.state()
    }

    /// Every name appears once and has one counter.
    pub closed spec fn wf(&self) -> bool {
        &&& self.names@.len() == self.counters@.len()
        &&& forall|i: int, j: int| 0 <= i < j < self.names@.len() ==> self.names@[i]@ != self.names@[j]@
    }

    /// Creates a registry with no counters.
    pub fn new() -> (r: Self)
        ensures
            r.wf(),
            r.names() == Seq::<Seq<char>>::empty(),
            r.memory() == (MemoryState { current: 0, peak: 0, allocs: 0, deallocs: 0 }),
    {
        let r = PerfRegistry { names: Vec::new(), counters: Vec::new(), memory_tracker: MemoryTracker::new() };
        proof {
            assert(r.names() =~= Seq::<Seq<char>>::empty());
        }
        r
    }

    /// Where the name is among the counters' names, if it is.
    fn find_name(&self, name: &str) -> (r: Option<usize>)
        ensures
            r matches Some(i) ==> (i < self.names@.len() && self.names()[i as int] == name@),
            r is None ==> !self.names().contains(name@),
    {
        let mut i: usize = 0;
        while i < self.names.len()
            invariant
                i <= self.names.len(),
                forall|k: int| 0 <= k < i ==> self.names()[k] != name@,
            decreases self.names.len() - i,
        {
            if str_eq(self.names[i].as_str(), name) {
                return Some(i);
            }
            i = i + 1;
        }
        proof {
            if self.names().contains(name@) {
                let k = choose|k: int| 0 <= k < self.names().len() && self.names()[k] == name@;
                assert(self.names()[k] != name@);
            }
        }
        None
    }

    /// The counter with the given name, created empty on first use.
    pub fn counter(&mut self, name: &str) -> (r: &mut PerfCounter)
        requires
            old(self).wf(),
        ensures
            final(self).wf(),
            old(self).names().contains(name@) ==> final(self).names() == old(self).names(),
            !old(self).names().contains(name@) ==> final(self).names() == old(self).names().push(name@),
            ({
                let k = name_index(final(self).names(), name@);
                &&& 0 <= k < final(self).names().len()
                &&& final(self).names()[k] == name@
                &&& old(self).names().contains(name@) ==> r.state() == old(self).states()[k]
                &&& !old(self).names().contains(name@) ==> r.state() == empty_counter()
                &&& final(self).states().len() == final(self).names().len()
                &&& forall|i: int| 0 <= i < final(self).states().len() && i != k ==> #[trigger] final(self).states()[i]
                    == old(self).states()[i]
                &&& final(self).states()[k] == final(r).state()
            }),
            final(self).memory() == old(self).memory(),
    {
        let ghost old_names = self.names();
        let ghost old_states = self.states();
        let idx = match self.find_name(name) {
            Some(i) => i,
            None => {
                let ghost before = self.names@;
                self.names.push(String::from_str(name));
                self.counters.push(PerfCounter::new());
                proof {
                    assert(self.names() =~= old_names.push(name@));
                    assert forall|i: int, j: int| 0 <= i < j < self.names@.len() implies self.names@[i]@
                        != self.names@[j]@ by {
                        if j == self.names@.len() - 1 {
                            assert(self.names@[i]@ == old_names[i]);
                        }
                    }
                }
                self.names.len() - 1
            },
        };
        proof {
            assert(self.names()[idx as int] == name@);
            assert forall|k: int| 0 <= k < self.names().len() && self.names()[k] == name@ implies k == idx by {
                if k != idx {
                    assert(self.names@[k]@ == self.names@[idx as int]@);
                }
            }
            assert(name_index(self.names(), name@) == idx);
            assert forall|i: int| 0 <= i < old_states.len() implies #[trigger] self.states()[i] == old_states[i] by {
            }
        }
        &mut self.counters[idx]
    }

    /// The memory tracker.
    pub fn memory_tracker(&mut self) -> (r: &mut MemoryTracker)
        ensures
            r.state() == old(self).memory(),
            final(self).memory() == final(r).state(),
            final(self).names() == old(self).names(),
            final(self).states() == old(self).states(),
            final(self).wf() == old(self).wf(),
    {
        &mut self.memory_tracker
    }

    /// Each counter's name and statistics, in the order the names were first
    /// asked for.
    pub fn all_stats(&self) -> (r: Vec<(String, PerfStats)>)
        requires
            self.wf(),
        ensures
            r@.len() == self.names().len(),
            forall|i: int| 0 <= i < r@.len() ==> (#[trigger] r@[i]).0@ == self.names()[i] && r@[i].1
                == stats_spec(self.states()[i]),
    {
        let mut out: Vec<(String, PerfStats)> = Vec::new();
        let mut i: usize = 0;
        while i < self.names.len()
            invariant
                i <= self.names.len(),
                self.names.len() == self.counters.len(),
                out@.len() == i,
                forall|k: int| 0 <= k < i ==> (#[trigger] out@[k]).0@ == self.names()[k] && out@[k].1
                    == stats_spec(self.states()[k]),
            decreases self.names.len() - i,
        {
            let name = self.names[i].clone();
            let stats = self.counters[i].stats();
            out.push((name, stats));
            i = i + 1;
        }
        out
    }

    /// Resets every counter and the memory tracker.
    pub fn reset_all(&mut self)
        ensures
            final(self).names() == old(self).names(),
            final(self).states() == Seq::new(old(self).states().len(), |i: int| empty_counter()),
            final(self).memory() == (MemoryState { current: 0, peak: 0, allocs: 0, deallocs: 0 }),
            final(self).wf() == old(self).wf(),
    {
        let mut i: usize = 0;
        let ghost n = self.counters@.len();
        while i < self.counters.len()
            invariant
                i <= self.counters.len(),
                self.counters@.len() == n,
                self.names() == old(self).names(),
                self.names@.len() == old(self).names@.len(),
                self.memory() == old(self).memory(),
                n == old(self).states().len(),
                forall|k: int| 0 <= k < i ==> #[trigger] self.states()[k] == empty_counter(),
                self.wf() == old(self).wf(),
            decreases self.counters.len() - i,
        {
            let ghost before = self.counters@;
            let ghost prior = self.states();
            self.counters[i].reset();
            proof {
                assert(self.counters@ == before.update(i as int, self.counters@[i as int]));
                assert forall|k: int| 0 <= k < i + 1 implies #[trigger] self.states()[k] == empty_counter() by {
                    if k < i {
                        assert(self.counters@[k] == before[k]);
                        assert(prior[k] == empty_counter());
                    }
                }
            }
            i = i + 1;
        }
        proof {
            assert forall|k: int| 0 <= k < n implies #[trigger] self.states()[k] == Seq::new(
                n,
                |i: int| empty_counter(),
            )[k] by {
            }
            assert(self.states() =~= Seq::new(n, |i: int| empty_counter()));
        }
        self.memory_tracker.reset();
    }
}

impl Default for PerfRegistry {
    fn default() -> (r: Self)
        ensures
            r.wf(),
            r.names() == Seq::<Seq<char>>::empty(),
    {
        Self::new()
    }
}

/// The position of a name among distinct names.
pub open spec fn name_index(names: Seq<Seq<char>>, name: Seq<char>) -> int {
    choose|k: int| 0 <= k < names.len() && names[k] == name
}

/// Recording never forgets: the count goes up by one (wrapping), and the
/// shortest and longest durations bound every recorded one.
pub proof fn lemma_record_bounds(s: CounterState, nanos: u64)
    ensures
        record_spec(s, nanos).min <= nanos <= record_spec(s, nanos).max,
        record_spec(s, nanos).min <= s.min,
        record_spec(s, nanos).max >= s.max,
        s.count < u64::MAX ==> record_spec(s, nanos).count == s.count + 1,
{
}

} // verus!
