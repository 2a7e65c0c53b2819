//! Structured logging and performance metrics for safer-ring.

use vstd::prelude::*;
use vstd::string::*;
use crate::error::SaferRingError;
use crate::text::{decimal, escape_quotes, push_decimal, push_escaped, push_signed_decimal, signed_decimal, str_eq};
use crate::perf::{instant_now, nanos_since, saturate_u64};

verus! {

/// Log level for safer-ring operations, from the most verbose to the most
/// severe.
#[derive(Debug, Clone, Copy, PartialEq, Eq, PartialOrd, Ord, Structural)]
pub enum LogLevel {
    /// Trace-level logging (very verbose)
    Trace,
    /// Debug-level logging
    Debug,
    /// Info-level logging
    Info,
    /// Warning-level logging
    Warn,
    /// Error-level logging
    Error,
}

impl LogLevel {
    /// The level's position in severity order: Trace 0 up to Error 4.
    pub open spec fn rank_spec(self) -> nat {
        match self {
            LogLevel::Trace => 0,
            LogLevel::Debug => 1,
            LogLevel::Info => 2,
            LogLevel::Warn => 3,
            LogLevel::Error => 4,
        }
    }

    /// The level's name as it appears in log lines.
    pub open spec fn name_spec(self) -> Seq<char> {
        match self {
            LogLevel::Trace => "TRACE"@,
            LogLevel::Debug => "DEBUG"@,
            LogLevel::Info => "INFO"@,
            LogLevel::Warn => "WARN"@,
            LogLevel::Error => "ERROR"@,
        }
    }

    /// The level's position in severity order: Trace 0 up to Error 4.
    pub fn rank(&self) -> (r: u8)
        ensures
            r == self.rank_spec(),
    {
        match self {
            LogLevel::Trace => 0,
            LogLevel::Debug => 1,
            LogLevel::Info => 2,
            LogLevel::Warn => 3,
            LogLevel::Error => 4,
        }
    }

    /// Whether this level is at least as severe as `other`.
    pub fn is_at_least(&self, other: &LogLevel) -> (r: bool)
        ensures
            r == (self.rank_spec() >= other.rank_spec()),
    {
        self.rank() >= other.rank()
    }

    /// The level's name as it appears in log lines.
    pub fn name(&self) -> (r: &'static str)
        ensures
            r@ == self.name_spec(),
    {
        match self {
            LogLevel::Trace => "TRACE",
            LogLevel::Debug => "DEBUG",
            LogLevel::Info => "INFO",
            LogLevel::Warn => "WARN",
            LogLevel::Error => "ERROR",
        }
    }

    /// Renders the level as text.
    pub fn to_string(&self) -> (r: String)
        ensures
            r@ == self.name_spec(),
    {
        String::from_str(self.name())
    }
}

/// `SystemTime::now`, as whole milliseconds since the Unix epoch
/// (`Duration::as_millis`; a zero duration for a clock set before the
/// epoch): it depends on the clock, so nothing is stated.
#[verifier::external_body]
fn now_millis() -> u128 {
    std::time::SystemTime::now().duration_since(std::time::UNIX_EPOCH).unwrap_or_default().as_millis()
}

/// The text of each key and value of a metadata list.
pub open spec fn meta_view(m: Seq<(String, String)>) -> Seq<(Seq<char>, Seq<char>)> {
    m.map_values(|p: (String, String)| (p.0@, p.1@))
}

/// The first position whose key is `k`.
pub open spec fn first_key(t: Seq<(Seq<char>, Seq<char>)>, k: Seq<char>) -> int {
    choose|i: int| 0 <= i < t.len() && t[i].0 == k && forall|j: int| 0 <= j < i ==> t[j].0 != k
}

/// The list with `k` set to `v`: the first entry with that key takes the
/// new value; a new key goes at the end.
pub open spec fn meta_insert(t: Seq<(Seq<char>, Seq<char>)>, k: Seq<char>, v: Seq<char>) -> Seq<(Seq<char>, Seq<char>)> {
    if exists|i: int| 0 <= i < t.len() && t[i].0 == k {
        t.update(first_key(t, k), (k, v))
    } else {
        t.push((k, v))
    }
}

/// `key:value` pairs joined by commas.
pub open spec fn meta_text(t: Seq<(Seq<char>, Seq<char>)>) -> Seq<char>
    decreases t.len(),
{
    if t.len() == 0 {
        Seq::empty()
    } else {
        meta_text(t.drop_last()) + (if t.len() > 1 { ","@ } else { Seq::empty() }) + t.last().0 + ":"@
            + t.last().1
    }
}

/// `"key":"value"` pairs joined by commas, with quotes in values escaped.
pub open spec fn meta_json(t: Seq<(Seq<char>, Seq<char>)>) -> Seq<char>
    decreases t.len(),
{
    if t.len() == 0 {
        Seq::empty()
    } else {
        meta_json(t.drop_last()) + (if t.len() > 1 { ","@ } else { Seq::empty() }) + "\""@ + t.last().0
            + "\":\""@ + escape_quotes(t.last().1) + "\""@
    }
}

/// The text a present value adds after a prefix, or nothing.
pub open spec fn opt_piece(prefix: Seq<char>, value: Option<Seq<char>>, suffix: Seq<char>) -> Seq<char> {
    match value {
        Some(v) => prefix + v + suffix,
        None => Seq::empty(),
    }
}

/// The decimal text of an optional count.
pub open spec fn opt_decimal(v: Option<u64>) -> Option<Seq<char>> {
    match v {
        Some(n) => Some(decimal(n as nat)),
        None => None,
    }
}

/// The decimal text of an optional descriptor.
pub open spec fn opt_signed(v: Option<i32>) -> Option<Seq<char>> {
    match v {
        Some(n) => Some(signed_decimal(n as int)),
        None => None,
    }
}

/// The whole microseconds in an optional duration of nanoseconds, as text.
pub open spec fn opt_micros(v: Option<u64>) -> Option<Seq<char>> {
    match v {
        Some(n) => Some(decimal((n / 1000) as nat)),
        None => None,
    }
}

/// Log entry containing structured information about safer-ring operations.
#[derive(Debug, Clone)]
pub struct LogEntry {
    /// When the entry was created, in milliseconds since the Unix epoch
    pub timestamp: u64,
    /// Log level
    pub level: LogLevel,
    /// Component that generated the log
    pub component: String,
    /// Operation ID if applicable
    pub operation_id: Option<u64>,
    /// File descriptor if applicable
    pub fd: Option<i32>,
    /// Message content
    pub message: String,
    /// Additional structured data: each key once, in the order first set
    pub metadata: Vec<(String, String)>,
    /// Duration in nanoseconds if this is a timing log
    pub duration: Option<u64>,
}

fn optional_piece(prefix: &str, value: Option<String>, suffix: &str) -> (r: String)
    ensures
        r@ == opt_piece(prefix@, match value {
            Some(v) => Some(v@),
            None => None,
        }, suffix@),
{
    let mut s = String::new();
    match value {
        Some(v) => {
            s.append(prefix);
            s.append(v.as_str());
            s.append(suffix);
            proof {
                assert(s@ =~= prefix@ + v@ + suffix@);
            }
        },
        None => {
            proof {
                assert(s@ =~= Seq::<char>::empty());
            }
        },
    }
    s
}

fn decimal_of(v: Option<u64>) -> (r: Option<String>)
    ensures
        match r {
            Some(t) => opt_decimal(v) == Some(t@),
            None => v is None,
        },
{
    match v {
        Some(n) => {
            let mut s = String::new();
            push_decimal(&mut s, n);
            proof {
                assert(s@ =~= decimal(n as nat));
            }
            Some(s)
        },
        None => None,
    }
}

fn micros_of(v: Option<u64>) -> (r: Option<String>)
    ensures
        match r {
            Some(t) => opt_micros(v) == Some(t@),
            None => v is None,
        },
{
    match v {
        Some(n) => decimal_of(Some(n / 1000)),
        None => None,
    }
}

fn signed_of(v: Option<i32>) -> (r: Option<String>)
    ensures
        match r {
            Some(t) => opt_signed(v) == Some(t@),
            None => v is None,
        },
{
    match v {
        Some(n) => {
            let mut s = String::new();
            push_signed_decimal(&mut s, n as i64);
            proof {
                assert(s@ =~= signed_decimal(n as int));
            }
            Some(s)
        },
        None => None,
    }
}

impl LogEntry {
    /// The human-readable line for this entry.
    pub open spec fn format_spec(&self) -> Seq<char> {
        "["@ + decimal(self.timestamp as nat) + "]"@ + " "@ + self.level.name_spec() + " "@ + self.component@
            + opt_piece(" op:"@, opt_decimal(self.operation_id), Seq::empty()) + opt_piece(
            " fd:"@,
            opt_signed(self.fd),
            Seq::empty(),
        ) + " "@ + self.message@ + opt_piece(" duration:"@, opt_micros(self.duration), "μs"@) + (if self.metadata@.len()
            == 0 {
            Seq::empty()
        } else {
            " metadata:{"@ + meta_text(meta_view(self.metadata@)) + "}"@
        })
    }

    /// The JSON object for this entry.
    pub open spec fn format_json_spec(&self) -> Seq<char> {
        "{"@ + "\"timestamp\":"@ + decimal(self.timestamp as nat) + ",\"level\":\""@ + self.level.name_spec() + "\""@
            + ",\"component\":\""@ + self.component@ + "\""@ + ",\"message\":\""@ + escape_quotes(self.message@)
            + "\""@ + opt_piece(",\"operation_id\":"@, opt_decimal(self.operation_id), Seq::empty()) + opt_piece(
            ",\"fd\":"@,
            opt_signed(self.fd),
            Seq::empty(),
        ) + opt_piece(",\"duration_us\":"@, opt_micros(self.duration), Seq::empty()) + (if self.metadata@.len()
            == 0 {
            Seq::empty()
        } else {
            ",\"metadata\":{"@ + meta_json(meta_view(self.metadata@)) + "}"@
        }) + "}"@
    }

    /// Creates an entry stamped with the current time, without operation,
    /// descriptor, metadata or duration.
    pub fn new(level: LogLevel, component: &str, message: &str) -> (r: Self)
        ensures
            r.level == level,
            r.component@ == component@,
            r.message@ == message@,
            r.operation_id is None,
            r.fd is None,
            r.metadata@.len() == 0,
            r.duration is None,
    {
        LogEntry {
            timestamp: saturate_u64(now_millis()),
            level,
            component: String::from_str(component),
            operation_id: None,
            fd: None,
            message: String::from_str(message),
            metadata: Vec::new(),
            duration: None,
        }
    }

    /// Adds the operation ID.
    pub fn with_operation_id(self, operation_id: u64) -> (r: Self)
        ensures
            r == (LogEntry { operation_id: Some(operation_id), ..self }),
    {
        let mut e = self;
        e.operation_id = Some(operation_id);
        e
    }

    /// Adds the file descriptor.
    pub fn with_fd(self, fd: i32) -> (r: Self)
        ensures
            r == (LogEntry { fd: Some(fd), ..self }),
    {
        let mut e = self;
        e.fd = Some(fd);
        e
    }

    /// Adds the duration, in nanoseconds.
    pub fn with_duration(self, duration: u64) -> (r: Self)
        ensures
            r == (LogEntry { duration: Some(duration), ..self }),
    {
        let mut e = self;
        e.duration = Some(duration);
        e
    }

    /// Sets a metadata key to a value.
    pub fn with_metadata(self, key: &str, value: &str) -> (r: Self)
        ensures
            meta_view(r.metadata@) == meta_insert(meta_view(self.metadata@), key@, value@),
            r.timestamp == self.timestamp,
            r.level == self.level,
            r.component == self.component,
            r.operation_id == self.operation_id,
            r.fd == self.fd,
            r.message == self.message,
            r.duration == self.duration,
    {
        let mut e = self;
        let ghost t = meta_view(e.metadata@);
        let mut i: usize = 0;
        while i < e.metadata.len()
            invariant
                i <= e.metadata.len(),
                t == meta_view(e.metadata@),
                t == meta_view(self.metadata@),
                forall|j: int| 0 <= j < i ==> t[j].0 != key@,
                e.timestamp == self.timestamp,
                e.level == self.level,
                e.component == self.component,
                e.operation_id == self.operation_id,
                e.fd == self.fd,
                e.message == self.message,
                e.duration == self.duration,
            decreases e.metadata.len() - i,
        {
            if str_eq(e.metadata[i].0.as_str(), key) {
                let ghost idx = i as int;
                e.metadata.set(i, (String::from_str(key), String::from_str(value)));
                proof {
                    assert(t[idx].0 == key@);
                    assert(exists|i: int| 0 <= i < t.len() && t[i].0 == key@);
                    assert(first_key(t, key@) == idx) by {
                        let c = first_key(t, key@);
                        assert(0 <= c < t.len() && t[c].0 == key@ && forall|j: int| 0 <= j < c ==> t[j].0 != key@);
                        if c < idx {
                        } else if c > idx {
                            assert(t[idx].0 != key@);
                        }
                    }
                    assert(meta_view(e.metadata@) =~= t.update(idx, (key@, value@)));
                }
                return e;
            }
            i = i + 1;
        }
        e.metadata.push((String::from_str(key), String::from_str(value)));
        proof {
            assert(meta_view(e.metadata@) =~= t.push((key@, value@)));
        }
        e
    }

    /// Formats the entry as a human-readable line: the timestamp in brackets,
    /// the level, the component, `op:` and `fd:` when present, the message,
    /// the duration in microseconds when present and the metadata when there
    /// is any, separated by spaces.
    pub fn format(&self) -> (r: String)
        ensures
            r@ == self.format_spec(),
    {
        let mut s = String::new();
        s.append("[");
        push_decimal(&mut s, self.timestamp);
        s.append("]");
        s.append(" ");
        s.append(self.level.name());
        s.append(" ");
        s.append(self.component.as_str());
        let op = optional_piece(" op:", decimal_of(self.operation_id), "");
        s.append(op.as_str());
        let fd = optional_piece(" fd:", signed_of(self.fd), "");
        s.append(fd.as_str());
        s.append(" ");
        s.append(self.message.as_str());
        let dur = optional_piece(" duration:", micros_of(self.duration), "μs");
        s.append(dur.as_str());
        if self.metadata.len() > 0 {
            let meta = metadata_text(&self.metadata);
            s.append(" metadata:{");
            s.append(meta.as_str());
            s.append("}");
        }
        proof {
            reveal_strlit("");
            assert(s@ =~= self.format_spec());
        }
        s
    }

    /// Formats the entry as a JSON object with its timestamp, level,
    /// component and message (quotes escaped), and its operation,
    /// descriptor, duration in microseconds and metadata when present.
    pub fn format_json(&self) -> (r: String)
        ensures
            r@ == self.format_json_spec(),
    {
        let mut s = String::new();
        s.append("{");
        s.append("\"timestamp\":");
        push_decimal(&mut s, self.timestamp);
        s.append(",\"level\":\"");
        s.append(self.level.name());
        s.append("\"");
        s.append(",\"component\":\"");
        s.append(self.component.as_str());
        s.append("\"");
        s.append(",\"message\":\"");
        push_escaped(&mut s, self.message.as_str());
        s.append("\"");
        let op = optional_piece(",\"operation_id\":", decimal_of(self.operation_id), "");
        s.append(op.as_str());
        let fd = optional_piece(",\"fd\":", signed_of(self.fd), "");
        s.append(fd.as_str());
        let dur = optional_piece(",\"duration_us\":", micros_of(self.duration), "");
        s.append(dur.as_str());
        if self.metadata.len() > 0 {
            let meta = metadata_json(&self.metadata);
            s.append(",\"metadata\":{");
            s.append(meta.as_str());
            s.append("}");
        }
        s.append("}");
        proof {
            reveal_strlit("");
            assert(s@ =~= self.format_json_spec());
        }
        s
    }
}

fn metadata_text(m: &Vec<(String, String)>) -> (r: String)
    ensures
        r@ == meta_text(meta_view(m@)),
{
    let mut s = String::new();
    let ghost t = meta_view(m@);
    let mut i: usize = 0;
    proof {
        assert(t.subrange(0, 0) =~= Seq::<(Seq<char>, Seq<char>)>::empty());
    }
    while i < m.len()
        invariant
            i <= m.len(),
            t == meta_view(m@),
            s@ == meta_text(t.subrange(0, i as int)),
        decreases m.len() - i,
    {
        let ghost before = s@;
        if i > 0 {
            s.append(",");
        }
        let ghost sep = s@;
        s.append(m[i].0.as_str());
        s.append(":");
        s.append(m[i].1.as_str());
        proof {
            let next = t.subrange(0, i + 1);
            assert(next.drop_last() =~= t.subrange(0, i as int));
            assert(next.last() == t[i as int]);
            if i > 0 {
                assert(sep == before + ","@);
            } else {
                assert(sep == before + Seq::<char>::empty());
            }
        }
        i = i + 1;
    }
    proof {
        assert(t.subrange(0, m.len() as int) =~= t);
    }
    s
}

fn metadata_json(m: &Vec<(String, String)>) -> (r: String)
    ensures
        r@ == meta_json(meta_view(m@)),
{
    let mut s = String::new();
    let ghost t = meta_view(m@);
    let mut i: usize = 0;
    proof {
        assert(t.subrange(0, 0) =~= Seq::<(Seq<char>, Seq<char>)>::empty());
    }
    while i < m.len()
        invariant
            i <= m.len(),
            t == meta_view(m@),
            s@ == meta_json(t.subrange(0, i as int)),
        decreases m.len() - i,
    {
        let ghost before = s@;
        if i > 0 {
            s.append(",");
        }
        let ghost sep = s@;
        s.append("\"");
        s.append(m[i].0.as_str());
        s.append("\":\"");
        push_escaped(&mut s, m[i].1.as_str());
        s.append("\"");
        proof {
            let next = t.subrange(0, i + 1);
            assert(next.drop_last() =~= t.subrange(0, i as int));
            assert(next.last() == t[i as int]);
            if i > 0 {
                assert(sep == before + ","@);
            } else {
                assert(sep == before + Seq::<char>::empty());
            }
        }
        i = i + 1;
    }
    proof {
        assert(t.subrange(0, m.len() as int) =~= t);
    }
    s
}

/// The text `format!("{:?}", Duration::from_nanos(nanos))` gives.
pub uninterp spec fn duration_debug_text(nanos: u64) -> Seq<char>;

/// `Debug` of `std::time::Duration`: the duration with a unit, as in
/// `15ms` or `1.5s`; its result depends on the number alone.
#[verifier::external_body]
fn duration_debug(nanos: u64) -> (r: String)
    ensures
        r@ == duration_debug_text(nanos),
{
    format!("{:?}", std::time::Duration::from_nanos(nanos))
}

/// Timing totals for one kind of operation, in nanoseconds.
#[derive(Debug, Clone)]
pub struct OperationMetrics {
    /// The operation's name
    pub name: String,
    /// How many times it was recorded
    pub count: u64,
    /// Sum of its durations
    pub total: u64,
    /// Shortest duration
    pub min: u64,
    /// Longest duration
    pub max: u64,
}

/// The totals of one kind of operation, with its name as text.
pub struct OpView {
    /// The operation's name
    pub name: Seq<char>,
    /// How many times it was recorded
    pub count: u64,
    /// Sum of its durations
    pub total: u64,
    /// Shortest duration
    pub min: u64,
    /// Longest duration
    pub max: u64,
}

/// The totals of each operation, names as text.
pub open spec fn ops_view(v: Seq<OperationMetrics>) -> Seq<OpView> {
    v.map_values(|m: OperationMetrics| OpView { name: m.name@, count: m.count, total: m.total, min: m.min, max: m.max })
}

/// The position of a name among operations with distinct names.
pub open spec fn op_index(ops: Seq<OpView>, name: Seq<char>) -> int {
    choose|k: int| 0 <= k < ops.len() && ops[k].name == name
}

/// Whether an operation of that name was recorded.
pub open spec fn has_op(ops: Seq<OpView>, name: Seq<char>) -> bool {
    exists|k: int| 0 <= k < ops.len() && ops[k].name == name
}

/// The totals after recording one more operation of that name.
pub open spec fn record_op(ops: Seq<OpView>, name: Seq<char>, d: u64) -> Seq<OpView> {
    if has_op(ops, name) {
        let k = op_index(ops, name);
        let o = ops[k];
        ops.update(
            k,
            OpView {
                name,
                count: (o.count + 1) as u64,
                total: (o.total + d) as u64,
                min: if d < o.min { d } else { o.min },
                max: if d > o.max { d } else { o.max },
            },
        )
    } else {
        ops.push(OpView { name, count: 1, total: d, min: d, max: d })
    }
}

/// The sum of the counts.
pub open spec fn total_count(ops: Seq<OpView>) -> nat
    decreases ops.len(),
{
    if ops.len() == 0 {
        0
    } else {
        total_count(ops.drop_last()) + ops.last().count as nat
    }
}

/// The average duration an operation's totals give: the total divided by
/// the count taken as a 32-bit number.
pub open spec fn average_of(o: OpView) -> u64 {
    (o.total / ((o.count as u32) as u64)) as u64
}

/// The report's lines for one operation.
pub open spec fn op_report(o: OpView) -> Seq<char> {
    "Operation: "@ + o.name + "\n"@ + "  Count: "@ + decimal(o.count as nat) + "\n"@ + "  Average Duration: "@
        + duration_debug_text(average_of(o)) + "\n"@ + "  Min Duration: "@ + duration_debug_text(o.min) + "\n"@
        + "  Max Duration: "@ + duration_debug_text(o.max) + "\n"@ + "\n"@
}

/// The summary report for a collection time of `collection_ns`
/// nanoseconds: a heading, the collection time, the total number of
/// operations, then each operation's line.
pub open spec fn report_text(ops: Seq<OpView>, collection_ns: u64) -> Seq<char> {
    "=== Safer-Ring Performance Metrics ===\n"@ + "Collection Duration: "@ + duration_debug_text(
        collection_ns,
    ) + "\n"@ + "Total Operations: "@ + decimal(total_count(ops)) + "\n\n"@ + ops_report(ops)
}

/// The report's lines for each operation, in order.
pub open spec fn ops_report(ops: Seq<OpView>) -> Seq<char>
    decreases ops.len(),
{
    if ops.len() == 0 {
        Seq::empty()
    } else {
        ops_report(ops.drop_last()) + op_report(ops.last())
    }
}

/// Performance metrics for safer-ring operations.
#[derive(Debug)]
pub struct PerformanceMetrics {
    ops: Vec<OperationMetrics>,
    start_time: std::time::Instant,
}

impl PerformanceMetrics {
    /// Each recorded operation's totals, in the order first recorded.
    pub closed spec fn ops(&self) -> Seq<OpView> {
        ops_view(self.ops@)
    }

    /// Every operation appears once, with a nonzero count.
    pub closed spec fn wf(&self) -> bool {
        &&& forall|i: int, j: int| 0 <= i < j < self.ops@.len() ==> self.ops@[i].name@ != self.ops@[j].name@
        &&& forall|i: int| 0 <= i < self.ops@.len() ==> (#[trigger] self.ops@[i]).count > 0
    }

    /// Creates metrics with nothing recorded, starting the collection clock.
    pub fn new() -> (r: Self)
        ensures
            r.wf(),
            r.ops() == Seq::<OpView>::empty(),
    {
        let r = PerformanceMetrics { ops: Vec::new(), start_time: instant_now() };
        proof {
            assert(r.ops() =~= Seq::<OpView>::empty());
        }
        r
    }

    fn find(&self, operation: &str) -> (r: Option<usize>)
        ensures
            r matches Some(i) ==> (i < self.ops@.len() && self.ops()[i as int].name == operation@),
            r is None ==> !has_op(self.ops(), operation@),
    {
        let mut i: usize = 0;
        while i < self.ops.len()
            invariant
                i <= self.ops.len(),
                forall|k: int| 0 <= k < i ==> self.ops()[k].name != operation@,
            decreases self.ops.len() - i,
        {
            if str_eq(self.ops[i].name.as_str(), operation) {
                return Some(i);
            }
            i = i + 1;
        }
        proof {
            if has_op(self.ops(), operation@) {
                let k = choose|k: int| 0 <= k < self.ops().len() && self.ops()[k].name == operation@;
                assert(self.ops()[k].name != operation@);
            }
        }
        None
    }

    proof fn lemma_index(&self, i: int, name: Seq<char>)
        requires
            self.wf(),
            0 <= i < self.ops().len(),
            self.ops()[i].name == name,
        ensures
            has_op(self.ops(), name),
            op_index(self.ops(), name) == i,
    {
        let k = op_index(self.ops(), name);
        assert(0 <= k < self.ops().len() && self.ops()[k].name == name);
        if k != i {
            assert(self.ops@[k].name@ == self.ops@[i].name@);
        }
    }

    /// The number of recordings of the operation; 0 for one never recorded.
    pub open spec fn count_of(&self, operation: Seq<char>) -> u64 {
        if has_op(self.ops(), operation) { self.ops()[op_index(self.ops(), operation)].count } else { 0 }
    }

    /// Records one operation of the given kind that took `duration`
    /// nanoseconds.
    pub fn record_operation(&mut self, operation: &str, duration: u64)
        requires
            old(self).wf(),
            has_op(old(self).ops(), operation@) ==> old(self).ops()[op_index(old(self).ops(), operation@)].count
                < u64::MAX && old(self).ops()[op_index(old(self).ops(), operation@)].total + duration <= u64::MAX,
        ensures
            final(self).wf(),
            final(self).ops() == record_op(old(self).ops(), operation@, duration),
    {
        match self.find(operation) {
            Some(i) => {
                proof {
                    self.lemma_index(i as int, operation@);
                }
                let old_entry = &self.ops[i];
                let updated = OperationMetrics {
                    name: old_entry.name.clone(),
                    count: old_entry.count + 1,
                    total: old_entry.total + duration,
                    min: if duration < old_entry.min { duration } else { old_entry.min },
                    max: if duration > old_entry.max { duration } else { old_entry.max },
                };
                let ghost before = self.ops@;
                self.ops.set(i, updated);
                proof {
                    assert(self.ops() =~= record_op(ops_view(before), operation@, duration));
                    assert forall|a: int, b: int| 0 <= a < b < self.ops@.len() implies self.ops@[a].name@
                        != self.ops@[b].name@ by {
                        assert(self.ops@[a].name@ == ops_view(before)[a].name);
                        assert(self.ops@[b].name@ == ops_view(before)[b].name);
                    }
                    assert forall|a: int| 0 <= a < self.ops@.len() implies (#[trigger] self.ops@[a]).count > 0 by {
                        if a != i {
                            assert(self.ops@[a] == before[a]);
                        }
                    }
                }
            },
            None => {
                let ghost before = self.ops@;
                self.ops.push(
                    OperationMetrics {
                        name: String::from_str(operation),
                        count: 1,
                        total: duration,
                        min: duration,
                        max: duration,
                    },
                );
                proof {
                    assert(self.ops() =~= record_op(ops_view(before), operation@, duration));
                    assert forall|a: int, b: int| 0 <= a < b < self.ops@.len() implies self.ops@[a].name@
                        != self.ops@[b].name@ by {
                        if b == self.ops@.len() - 1 {
                            assert(ops_view(before)[a].name == self.ops@[a].name@);
                        } else {
                            assert(self.ops@[a] == before[a]);
                            assert(self.ops@[b] == before[b]);
                        }
                    }
                    assert forall|a: int| 0 <= a < self.ops@.len() implies (#[trigger] self.ops@[a]).count > 0 by {
                        if a < before.len() {
                            assert(self.ops@[a] == before[a]);
                        }
                    }
                }
            },
        }
    }

    /// The number of recordings of the operation; 0 for one never recorded.
    pub fn get_count(&self, operation: &str) -> (r: u64)
        requires
            self.wf(),
        ensures
            r == self.count_of(operation@),
    {
        match self.find(operation) {
            Some(i) => {
                proof {
                    self.lemma_index(i as int, operation@);
                }
                self.ops[i].count
            },
            None => 0,
        }
    }

    /// Whether one more timing of `duration` nanoseconds can be recorded for
    /// the operation without its count or its total overflowing.
    pub fn can_record(&self, operation: &str, duration: u64) -> (r: bool)
        requires
            self.wf(),
        ensures
            r == (has_op(self.ops(), operation@) ==> self.ops()[op_index(self.ops(), operation@)].count
                < u64::MAX && self.ops()[op_index(self.ops(), operation@)].total + duration <= u64::MAX),
    {
        match self.find(operation) {
            Some(i) => {
                proof {
                    self.lemma_index(i as int, operation@);
                }
                self.ops[i].count < u64::MAX && duration <= u64::MAX - self.ops[i].total
            },
            None => true,
        }
    }

    /// The average duration of the operation; `None` for one never recorded.
    pub fn get_average_duration(&self, operation: &str) -> (r: Option<u64>)
        requires
            self.wf(),
            self.count_of(operation@) == 0 || (self.count_of(operation@) as u32) != 0,
        ensures
            has_op(self.ops(), operation@) ==> r == Some(average_of(self.ops()[op_index(self.ops(), operation@)])),
            !has_op(self.ops(), operation@) ==> r is None,
    {
        match self.find(operation) {
            Some(i) => {
                proof {
                    self.lemma_index(i as int, operation@);
                }
                let entry = &self.ops[i];
                let divisor: u32 = entry.count as u32;
                Some(entry.total / (divisor as u64))
            },
            None => None,
        }
    }

    /// The shortest duration of the operation; `None` for one never recorded.
    pub fn get_min_duration(&self, operation: &str) -> (r: Option<u64>)
        requires
            self.wf(),
        ensures
            has_op(self.ops(), operation@) ==> r == Some(self.ops()[op_index(self.ops(), operation@)].min),
            !has_op(self.ops(), operation@) ==> r is None,
    {
        match self.find(operation) {
            Some(i) => {
                proof {
                    self.lemma_index(i as int, operation@);
                }
                Some(self.ops[i].min)
            },
            None => None,
        }
    }

    /// The longest duration of the operation; `None` for one never recorded.
    pub fn get_max_duration(&self, operation: &str) -> (r: Option<u64>)
        requires
            self.wf(),
        ensures
            has_op(self.ops(), operation@) ==> r == Some(self.ops()[op_index(self.ops(), operation@)].max),
            !has_op(self.ops(), operation@) ==> r is None,
    {
        match self.find(operation) {
            Some(i) => {
                proof {
                    self.lemma_index(i as int, operation@);
                }
                Some(self.ops[i].max)
            },
            None => None,
        }
    }

    /// The names of the recorded operations, in the order first recorded.
    pub fn get_operation_types(&self) -> (r: Vec<String>)
        ensures
            r@.len() == self.ops().len(),
            forall|i: int| 0 <= i < r@.len() ==> (#[trigger] r@[i])@ == self.ops()[i].name,
    {
        let mut out: Vec<String> = Vec::new();
        let mut i: usize = 0;
        while i < self.ops.len()
            invariant
                i <= self.ops.len(),
                out@.len() == i,
                forall|k: int| 0 <= k < i ==> (#[trigger] out@[k])@ == self.ops()[k].name,
            decreases self.ops.len() - i,
        {
            out.push(self.ops[i].name.clone());
            i = i + 1;
        }
        out
    }

    /// The number of recordings over all operations.
    pub fn get_total_operations(&self) -> (r: u64)
        requires
            total_count(self.ops()) <= u64::MAX,
        ensures
            r == total_count(self.ops()),
    {
        let ghost ops = self.ops();
        let mut sum: u64 = 0;
        let mut i: usize = 0;
        proof {
            assert(ops.subrange(0, 0) =~= Seq::<OpView>::empty());
        }
        while i < self.ops.len()
            invariant
                i <= self.ops.len(),
                ops == self.ops(),
                total_count(ops) <= u64::MAX,
                sum == total_count(ops.subrange(0, i as int)),
            decreases self.ops.len() - i,
        {
            proof {
                let next = ops.subrange(0, i + 1);
                assert(next.drop_last() =~= ops.subrange(0, i as int));
                lemma_total_count_prefix(ops, i + 1);
            }
            sum = sum + self.ops[i].count;
            i = i + 1;
        }
        proof {
            assert(ops.subrange(0, ops.len() as int) =~= ops);
        }
        sum
    }

    /// A copy of the metrics, with the same collection start.
    pub fn duplicate(&self) -> (r: Self)
        ensures
            r.ops() == self.ops(),
            self.wf() ==> r.wf(),
    {
        let mut ops: Vec<OperationMetrics> = Vec::new();
        let mut i: usize = 0;
        while i < self.ops.len()
            invariant
                i <= self.ops.len(),
                ops@.len() == i,
                forall|k: int| 0 <= k < i ==> (#[trigger] ops@[k]).name@ == self.ops@[k].name@ && ops@[k].count
                    == self.ops@[k].count && ops@[k].total == self.ops@[k].total && ops@[k].min
                    == self.ops@[k].min && ops@[k].max == self.ops@[k].max,
            decreases self.ops.len() - i,
        {
            let m = &self.ops[i];
            ops.push(OperationMetrics { name: m.name.clone(), count: m.count, total: m.total, min: m.min, max: m.max });
            i = i + 1;
        }
        let r = PerformanceMetrics { ops, start_time: self.start_time };
        proof {
            assert(r.ops() =~= self.ops());
            if self.wf() {
                assert forall|a: int, b: int| 0 <= a < b < r.ops@.len() implies r.ops@[a].name@ != r.ops@[b].name@ by {
                    assert(r.ops@[a].name@ == self.ops@[a].name@);
                    assert(r.ops@[b].name@ == self.ops@[b].name@);
                }
                assert forall|a: int| 0 <= a < r.ops@.len() implies (#[trigger] r.ops@[a]).count > 0 by {
                    assert(r.ops@[a].count == self.ops@[a].count);
                }
            }
        }
        r
    }

    /// Nanoseconds since collection started; it depends on the clock, so
    /// nothing is stated.
    pub fn get_collection_duration(&self) -> u64 {
        saturate_u64(nanos_since(&self.start_time))
    }

    /// Forgets everything recorded and restarts the collection clock.
    pub fn reset(&mut self)
        ensures
            final(self).wf(),
            final(self).ops() == Seq::<OpView>::empty(),
    {
        self.ops = Vec::new();
        self.start_time = instant_now();
        proof {
            assert(self.ops() =~= Seq::<OpView>::empty());
        }
    }

    /// The summary report, with the collection time read from the clock:
    /// the report for some collection time, which the clock decides.
    pub fn generate_report(&self) -> (r: String)
        requires
            self.wf(),
            total_count(self.ops()) <= u64::MAX,
            forall|i: int| 0 <= i < self.ops().len() ==> (#[trigger] self.ops()[i].count as u32) != 0,
        ensures
            exists|collection_ns: u64| r@ == report_text(self.ops(), collection_ns),
    {
        let elapsed = self.get_collection_duration();
        self.report_with(elapsed)
    }

    /// The summary report for a collection time of `collection_ns`
    /// nanoseconds: a heading, the collection time, the total number of
    /// operations, then each operation's count and average, shortest and
    /// longest durations.
    pub fn report_with(&self, collection_ns: u64) -> (r: String)
        requires
            self.wf(),
            total_count(self.ops()) <= u64::MAX,
            forall|i: int| 0 <= i < self.ops().len() ==> (#[trigger] self.ops()[i].count as u32) != 0,
        ensures
            r@ == report_text(self.ops(), collection_ns),
    {
        let mut s = String::new();
        s.append("=== Safer-Ring Performance Metrics ===\n");
        s.append("Collection Duration: ");
        let d = duration_debug(collection_ns);
        s.append(d.as_str());
        s.append("\n");
        s.append("Total Operations: ");
        let total = self.get_total_operations();
        push_decimal(&mut s, total);
        s.append("\n\n");
        let ghost head = s@;
        let ghost ops = self.ops();
        let mut i: usize = 0;
        proof {
            assert(ops.subrange(0, 0) =~= Seq::<OpView>::empty());
            assert(s@ =~= head + ops_report(ops.subrange(0, 0)));
        }
        while i < self.ops.len()
            invariant
                i <= self.ops.len(),
                ops == self.ops(),
                forall|k: int| 0 <= k < ops.len() ==> (#[trigger] ops[k].count as u32) != 0,
                s@ == head + ops_report(ops.subrange(0, i as int)),
            decreases self.ops.len() - i,
        {
            proof {
                assert((ops[i as int].count as u32) != 0);
                assert(ops[i as int].count == self.ops@[i as int].count);
            }
            let piece = operation_report(&self.ops[i]);
            s.append(piece.as_str());
            proof {
                let next = ops.subrange(0, i + 1);
                assert(next.drop_last() =~= ops.subrange(0, i as int));
                assert(next.last() == ops[i as int]);
                assert(s@ =~= head + ops_report(next));
            }
            i = i + 1;
        }
        proof {
            assert(ops.subrange(0, ops.len() as int) =~= ops);
        }
        s
    }
}

fn operation_report(m: &OperationMetrics) -> (r: String)
    requires
        (m.count as u32) != 0,
    ensures
        r@ == op_report(OpView { name: m.name@, count: m.count, total: m.total, min: m.min, max: m.max }),
{
    let mut s = String::new();
    s.append("Operation: ");
    s.append(m.name.as_str());
    s.append("\n");
    s.append("  Count: ");
    push_decimal(&mut s, m.count);
    s.append("\n");
    s.append("  Average Duration: ");
    let divisor: u32 = m.count as u32;
    let avg = duration_debug(m.total / (divisor as u64));
    s.append(avg.as_str());
    s.append("\n");
    s.append("  Min Duration: ");
    let min = duration_debug(m.min);
    s.append(min.as_str());
    s.append("\n");
    s.append("  Max Duration: ");
    let max = duration_debug(m.max);
    s.append(max.as_str());
    s.append("\n");
    s.append("\n");
    proof {
        assert(s@ =~= op_report(OpView { name: m.name@, count: m.count, total: m.total, min: m.min, max: m.max }));
    }
    s
}

proof fn lemma_total_count_prefix(ops: Seq<OpView>, i: int)
    requires
        0 <= i <= ops.len(),
    ensures
        total_count(ops.subrange(0, i)) <= total_count(ops),
    decreases ops.len(),
{
    if i < ops.len() {
        lemma_total_count_prefix(ops.drop_last(), i);
        assert(ops.drop_last().subrange(0, i) =~= ops.subrange(0, i));
    } else {
        assert(ops.subrange(0, i) =~= ops);
    }
}

impl Default for PerformanceMetrics {
    fn default() -> (r: Self)
        ensures
            r.wf(),
            r.ops() == Seq::<OpView>::empty(),
    {
        Self::new()
    }
}

/// Console log output, written to standard error by the application.
#[derive(Debug, Clone, Copy, PartialEq, Eq, Structural)]
pub struct ConsoleOutput {
    /// Whether to use JSON format
    pub json_format: bool,
}

impl ConsoleOutput {
    /// A console output with text format.
    pub fn new() -> (r: Self)
        ensures
            !r.json_format,
    {
        ConsoleOutput { json_format: false }
    }

    /// A console output with JSON format.
    pub fn new_json() -> (r: Self)
        ensures
            r.json_format,
    {
        ConsoleOutput { json_format: true }
    }
}

impl Default for ConsoleOutput {
    fn default() -> (r: Self)
        ensures
            !r.json_format,
    {
        Self::new()
    }
}

/// File log output: entries are appended to the file at the path.
#[derive(Debug, Clone)]
pub struct FileOutput {
    /// Path to the log file
    pub path: String,
    /// Whether to use JSON format
    pub json_format: bool,
}

impl FileOutput {
    /// A file output with text format.
    pub fn new(path: &str) -> (r: Self)
        ensures
            r.path@ == path@,
            !r.json_format,
    {
        FileOutput { path: String::from_str(path), json_format: false }
    }

    /// A file output with JSON format.
    pub fn new_json(path: &str) -> (r: Self)
        ensures
            r.path@ == path@,
            r.json_format,
    {
        FileOutput { path: String::from_str(path), json_format: true }
    }
}

/// A destination for log lines.
#[derive(Debug, Clone)]
pub enum OutputTarget {
    /// Standard error
    Console(ConsoleOutput),
    /// A file
    File(FileOutput),
}

impl OutputTarget {
    /// Whether the destination takes JSON lines.
    pub open spec fn json(&self) -> bool {
        match self {
            OutputTarget::Console(c) => c.json_format,
            OutputTarget::File(f) => f.json_format,
        }
    }

    /// The line the destination takes for an entry.
    pub open spec fn line_spec(&self, entry: LogEntry) -> Seq<char> {
        if self.json() { entry.format_json_spec() } else { entry.format_spec() }
    }

    /// The line for an entry, in the destination's format.
    pub fn render(&self, entry: &LogEntry) -> (r: String)
        ensures
            r@ == self.line_spec(*entry),
    {
        let json = match self {
            OutputTarget::Console(c) => c.json_format,
            OutputTarget::File(f) => f.json_format,
        };
        if json {
            entry.format_json()
        } else {
            entry.format()
        }
    }
}

/// The lines each destination takes for an entry, in order.
pub open spec fn lines_for(outputs: Seq<OutputTarget>, entry: LogEntry, lines: Seq<String>) -> bool {
    &&& lines.len() == outputs.len()
    &&& forall|i: int| 0 <= i < lines.len() ==> (#[trigger] lines[i])@ == outputs[i].line_spec(entry)
}

/// Central logger: decides what is logged and renders it for each output.
/// The application writes the rendered lines to the outputs.
#[derive(Debug)]
pub struct Logger {
    min_level: LogLevel,
    outputs: Vec<OutputTarget>,
    metrics: PerformanceMetrics,
}

impl Logger {
    /// The least severe level that is logged.
    pub closed spec fn level_spec(&self) -> LogLevel {
        self.min_level
    }

    /// The destinations, in the order added.
    pub closed spec fn outputs_spec(&self) -> Seq<OutputTarget> {
        self.outputs@
    }

    /// The timing metrics gathered so far.
    pub closed spec fn metrics_spec(&self) -> PerformanceMetrics {
        self.metrics
    }

    /// A logger at level Info writing text to the console.
    pub fn new() -> (r: Self)
        ensures
            r.level_spec() == LogLevel::Info,
            r.outputs_spec() == seq![OutputTarget::Console(ConsoleOutput { json_format: false })],
            r.metrics_spec().wf(),
            r.metrics_spec().ops() == Seq::<OpView>::empty(),
    {
        let mut outputs: Vec<OutputTarget> = Vec::new();
        outputs.push(OutputTarget::Console(ConsoleOutput::new()));
        let r = Logger { min_level: LogLevel::Info, outputs, metrics: PerformanceMetrics::new() };
        proof {
            assert(r.outputs_spec() =~= seq![OutputTarget::Console(ConsoleOutput { json_format: false })]);
        }
        r
    }

    /// The least severe level that is logged.
    pub fn min_level(&self) -> (r: LogLevel)
        ensures
            r == self.level_spec(),
    {
        self.min_level
    }

    /// The destinations, in the order added.
    pub fn outputs(&self) -> (r: &Vec<OutputTarget>)
        ensures
            r@ == self.outputs_spec(),
    {
        &self.outputs
    }

    /// Sets the least severe level that is logged.
    pub fn set_level(&mut self, level: LogLevel)
        ensures
            final(self).level_spec() == level,
            final(self).outputs_spec() == old(self).outputs_spec(),
            final(self).metrics_spec() == old(self).metrics_spec(),
    {
        self.min_level = level;
    }

    /// Adds a destination.
    pub fn add_output(&mut self, output: OutputTarget)
        ensures
            final(self).outputs_spec() == old(self).outputs_spec().push(output),
            final(self).level_spec() == old(self).level_spec(),
            final(self).metrics_spec() == old(self).metrics_spec(),
    {
        self.outputs.push(output);
    }

    fn render_all(&self, entry: &LogEntry) -> (r: Vec<String>)
        ensures
            lines_for(self.outputs_spec(), *entry, r@),
    {
        let mut lines: Vec<String> = Vec::new();
        let mut i: usize = 0;
        while i < self.outputs.len()
            invariant
                i <= self.outputs.len(),
                lines@.len() == i,
                forall|k: int| 0 <= k < i ==> (#[trigger] lines@[k])@ == self.outputs@[k].line_spec(*entry),
            decreases self.outputs.len() - i,
        {
            lines.push(self.outputs[i].render(entry));
            i = i + 1;
        }
        lines
    }

    /// The lines to write, one per destination, for a message at the given
    /// level; none when the level is below the logger's.
    pub fn log(&self, level: LogLevel, component: &str, message: &str) -> (r: Vec<String>)
        ensures
            level.rank_spec() < self.level_spec().rank_spec() ==> r@.len() == 0,
            level.rank_spec() >= self.level_spec().rank_spec() ==> exists|e: LogEntry|
                e.level == level && e.component@ == component@ && e.message@ == message@ && e.operation_id is None
                    && e.fd is None && e.metadata@.len() == 0 && e.duration is None && lines_for(
                    self.outputs_spec(),
                    e,
                    r@,
                ),
    {
        if level.is_at_least(&self.min_level) {
            let entry = LogEntry::new(level, component, message);
            self.render_all(&entry)
        } else {
            Vec::new()
        }
    }

    /// The lines to write for a message about an operation (and its file
    /// descriptor, when given); none when the level is below the logger's.
    pub fn log_operation(&self, level: LogLevel, component: &str, operation_id: u64, fd: Option<i32>, message: &str) -> (r: Vec<String>)
        ensures
            level.rank_spec() < self.level_spec().rank_spec() ==> r@.len() == 0,
            level.rank_spec() >= self.level_spec().rank_spec() ==> exists|e: LogEntry|
                e.level == level && e.component@ == component@ && e.message@ == message@ && e.operation_id
                    == Some(operation_id) && e.fd == fd && e.metadata@.len() == 0 && e.duration is None
                    && lines_for(self.outputs_spec(), e, r@),
    {
        if level.is_at_least(&self.min_level) {
            let mut entry = LogEntry::new(level, component, message).with_operation_id(operation_id);
            if let Some(fd) = fd {
                entry = entry.with_fd(fd);
            }
            self.render_all(&entry)
        } else {
            Vec::new()
        }
    }

    /// The lines to write for a timing of `duration` nanoseconds, logged
    /// at Debug level as "`operation` completed"; the timing is also added
    /// to the metrics. Nothing happens when Debug is below the logger's level.
    pub fn log_timing(&mut self, component: &str, operation: &str, duration: u64) -> (r: Vec<String>)
        requires
            old(self).metrics_spec().wf(),
            LogLevel::Debug.rank_spec() >= old(self).level_spec().rank_spec() && has_op(
                old(self).metrics_spec().ops(),
                operation@,
            ) ==> old(self).metrics_spec().ops()[op_index(old(self).metrics_spec().ops(), operation@)].count
                < u64::MAX && old(self).metrics_spec().ops()[op_index(
                old(self).metrics_spec().ops(),
                operation@,
            )].total + duration <= u64::MAX,
        ensures
            final(self).metrics_spec().wf(),
            final(self).level_spec() == old(self).level_spec(),
            final(self).outputs_spec() == old(self).outputs_spec(),
            LogLevel::Debug.rank_spec() < old(self).level_spec().rank_spec() ==> r@.len() == 0
                && final(self).metrics_spec() == old(self).metrics_spec(),
            LogLevel::Debug.rank_spec() >= old(self).level_spec().rank_spec() ==> final(self).metrics_spec().ops()
                == record_op(old(self).metrics_spec().ops(), operation@, duration) && exists|e: LogEntry|
                e.level == LogLevel::Debug && e.component@ == component@ && e.message@ == operation@
                    + " completed"@ && e.operation_id is None && e.fd is None && e.metadata@.len() == 0
                    && e.duration == Some(duration) && lines_for(old(self).outputs_spec(), e, r@),
    {
        if LogLevel::Debug.is_at_least(&self.min_level) {
            let mut message = String::from_str(operation);
            message.append(" completed");
            let entry = LogEntry::new(LogLevel::Debug, component, message.as_str()).with_duration(duration);
            let lines = self.render_all(&entry);
            self.metrics.record_operation(operation, duration);
            lines
        } else {
            Vec::new()
        }
    }

    /// The lines to write for an error, at Error level whatever the
    /// logger's level, with the message "`context`: `error`".
    pub fn log_error(&self, component: &str, error: &SaferRingError, context: &str) -> (r: Vec<String>)
        ensures
            exists|e: LogEntry|
                e.level == LogLevel::Error && e.component@ == component@ && e.message@ == context@ + ": "@
                    + error.message_spec() && e.operation_id is None && e.fd is None && e.metadata@.len() == 0
                    && e.duration is None && lines_for(self.outputs_spec(), e, r@),
    {
        let mut message = String::from_str(context);
        message.append(": ");
        let text = error.to_string();
        message.append(text.as_str());
        let entry = LogEntry::new(LogLevel::Error, component, message.as_str());
        self.render_all(&entry)
    }

    /// A copy of the metrics gathered so far.
    pub fn get_metrics(&self) -> (r: Result<PerformanceMetrics, SaferRingError>)
        ensures
            r matches Ok(m) && m.ops() == self.metrics_spec().ops(),
    {
        Ok(self.metrics.duplicate())
    }

    /// Forgets the metrics gathered so far.
    pub fn reset_metrics(&mut self) -> (r: Result<(), SaferRingError>)
        ensures
            r is Ok,
            final(self).metrics_spec().wf(),
            final(self).metrics_spec().ops() == Seq::<OpView>::empty(),
            final(self).level_spec() == old(self).level_spec(),
            final(self).outputs_spec() == old(self).outputs_spec(),
    {
        self.metrics.reset();
        Ok(())
    }
}

impl Default for Logger {
    fn default() -> (r: Self)
        ensures
            r.level_spec() == LogLevel::Info,
    {
        Self::new()
    }
}

/// The levels from the most verbose to the most severe, as declared.
pub open spec fn severity_order() -> Seq<LogLevel> {
    seq![LogLevel::Trace, LogLevel::Debug, LogLevel::Info, LogLevel::Warn, LogLevel::Error]
}

/// The level filter follows the declared severity order: a level passes
/// a logger's minimum exactly when it comes at or after that minimum in
/// Trace, Debug, Info, Warn, Error. So a logger set to Warn passes Error
/// and Warn and drops Info, Debug and Trace; one set to Error drops Warn.
pub proof fn lemma_level_filter_follows_severity()
    ensures
        severity_order().len() == 5,
        forall|l: LogLevel| #[trigger] severity_order().contains(l),
        forall|i: int, j: int|
            0 <= i < 5 && 0 <= j < 5 ==> ((#[trigger] severity_order()[i]).rank_spec()
                >= (#[trigger] severity_order()[j]).rank_spec() <==> i >= j),
{
    let o = severity_order();
    assert forall|l: LogLevel| #[trigger] o.contains(l) by {
        match l {
            LogLevel::Trace => assert(o[0] == l),
            LogLevel::Debug => assert(o[1] == l),
            LogLevel::Info => assert(o[2] == l),
            LogLevel::Warn => assert(o[3] == l),
            LogLevel::Error => assert(o[4] == l),
        }
    }
    assert forall|i: int, j: int| 0 <= i < 5 && 0 <= j < 5 implies ((#[trigger] o[i]).rank_spec()
        >= (#[trigger] o[j]).rank_spec() <==> i >= j) by {
        assert(o[0] == LogLevel::Trace && o[1] == LogLevel::Debug && o[2] == LogLevel::Info
            && o[3] == LogLevel::Warn && o[4] == LogLevel::Error);
    }
}

/// Recording an operation counts it once more and keeps its shortest and
/// longest durations around the new one; other operations are untouched.
pub proof fn lemma_record_counts(ops: Seq<OpView>, name: Seq<char>, d: u64, other: Seq<char>)
    requires
        forall|i: int, j: int| 0 <= i < j < ops.len() ==> ops[i].name != ops[j].name,
        has_op(ops, name) ==> ops[op_index(ops, name)].count < u64::MAX && ops[op_index(ops, name)].total + d
            <= u64::MAX,
    ensures
        has_op(record_op(ops, name, d), name),
        ({
            let after = record_op(ops, name, d);
            let o = after[op_index(after, name)];
            &&& o.count == (if has_op(ops, name) { ops[op_index(ops, name)].count + 1 } else { 1 })
            &&& o.min <= d <= o.max
        }),
        other != name ==> (has_op(record_op(ops, name, d), other) == has_op(ops, other)),
{
    let after = record_op(ops, name, d);
    if has_op(ops, name) {
        let k = op_index(ops, name);
        assert(after[k].name == name);
        let c = op_index(after, name);
        if c != k {
            assert(after[c] == ops[c]);
        }
        if other != name && has_op(ops, other) {
            let j = choose|j: int| 0 <= j < ops.len() && ops[j].name == other;
            assert(after[j].name == other);
        }
        if other != name && has_op(after, other) {
            let j = choose|j: int| 0 <= j < after.len() && after[j].name == other;
            assert(ops[j].name == other);
        }
    } else {
        let k = ops.len() as int;
        assert(after[k].name == name);
        let c = op_index(after, name);
        if c != k {
            assert(after[c] == ops[c]);
        }
        if other != name && has_op(ops, other) {
            let j = choose|j: int| 0 <= j < ops.len() && ops[j].name == other;
            assert(after[j].name == other);
        }
        if other != name && has_op(after, other) {
            let j = choose|j: int| 0 <= j < after.len() && after[j].name == other;
            assert(ops[j].name == other);
        }
    }
}

} // verus!
