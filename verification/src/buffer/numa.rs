//! The parts of NUMA discovery that read text: CPU lists, node directory
//! names, the running CPU and the node a CPU belongs to.

use vstd::prelude::*;
use vstd::string::*;
use crate::error::{IoError, IoErrorKind};
use crate::text::{decimal, push_decimal};
use crate::parse::{
    all_digits, char_rows, chars_of, parse_usize, parse_usize_spec, split_chars, split_fields, split_words,
    starts_with, trim_chars, trimmed, words,
};

verus! {

/// The CPUs `a` to `b`, both included; none when `a > b`.
pub open spec fn cpu_range(a: usize, b: usize) -> Seq<usize> {
    if a <= b {
        Seq::new((b - a + 1) as nat, |i: int| (a + i) as usize)
    } else {
        Seq::empty()
    }
}

/// The CPUs one comma-separated part of a CPU list names: a range `a-b`,
/// or a single number. A part with more than one `-` names none.
pub open spec fn part_cpus(p: Seq<char>) -> Result<Seq<usize>, Seq<char>> {
    if p.contains('-') {
        let r = split_fields(p, '-');
        if r.len() == 2 {
            match (parse_usize_spec(r[0]), parse_usize_spec(r[1])) {
                (Some(a), Some(b)) => Ok(cpu_range(a, b)),
                _ => Err("Invalid CPU range"@),
            }
        } else {
            Ok(Seq::empty())
        }
    } else {
        match parse_usize_spec(p) {
            Some(c) => Ok(seq![c]),
            None => Err("Invalid CPU number"@),
        }
    }
}

/// The CPUs a list of parts names, in order, or the error of the first part
/// that cannot be read.
pub open spec fn cpu_list_spec(parts: Seq<Seq<char>>) -> Result<Seq<usize>, Seq<char>>
    decreases parts.len(),
{
    if parts.len() == 0 {
        Ok(Seq::empty())
    } else {
        match cpu_list_spec(parts.drop_last()) {
            Err(e) => Err(e),
            Ok(prev) => match part_cpus(parts.last()) {
                Err(e) => Err(e),
                Ok(c) => Ok(prev + c),
            },
        }
    }
}

proof fn lemma_error_sticks(ps: Seq<Seq<char>>, k: int, e: Seq<char>)
    requires
        0 <= k <= ps.len(),
        cpu_list_spec(ps.subrange(0, k)) == Err::<Seq<usize>, Seq<char>>(e),
    ensures
        cpu_list_spec(ps) == Err::<Seq<usize>, Seq<char>>(e),
    decreases ps.len() - k,
{
    if k == ps.len() {
        assert(ps.subrange(0, k) =~= ps);
    } else {
        let next = ps.subrange(0, k + 1);
        assert(next.drop_last() =~= ps.subrange(0, k));
        lemma_error_sticks(ps, k + 1, e);
    }
}

fn has_dash(p: &Vec<char>) -> (r: bool)
    ensures
        r == p@.contains('-'),
{
    let mut i: usize = 0;
    while i < p.len()
        invariant
            i <= p.len(),
            forall|k: int| 0 <= k < i ==> p@[k] != '-',
        decreases p.len() - i,
    {
        if p[i] == '-' {
            proof {
                assert(p@[i as int] == '-');
            }
            return true;
        }
        i = i + 1;
    }
    false
}

fn push_range(out: &mut Vec<usize>, a: usize, b: usize)
    ensures
        final(out)@ == old(out)@ + cpu_range(a, b),
{
    let ghost base = out@;
    if a > b {
        proof {
            assert(base + cpu_range(a, b) =~= base);
        }
        return;
    }
    let mut c: usize = a;
    proof {
        assert(out@ =~= base + Seq::new((c - a) as nat, |i: int| (a + i) as usize));
    }
    loop
        invariant_except_break
            a <= c <= b,
            out@ == base + Seq::new((c - a) as nat, |i: int| (a + i) as usize),
        ensures
            out@ == base + cpu_range(a, b),
        decreases b - c,
    {
        out.push(c);
        if c == b {
            proof {
                assert(out@ =~= base + cpu_range(a, b));
            }
            break;
        }
        c = c + 1;
        proof {
            assert(out@ =~= base + Seq::new((c - a) as nat, |i: int| (a + i) as usize));
        }
    }
}

/// Reads a CPU list such as `0-3,8,10-11` into the CPUs it names, in order.
///
/// # Errors
///
/// An `InvalidData` error, "Invalid CPU range" or "Invalid CPU number",
/// for the first part that is not a number or a range of numbers.
pub fn parse_cpu_list(cpulist: &str) -> (r: Result<Vec<usize>, IoError>)
    ensures
        match r {
            Ok(v) => cpu_list_spec(split_fields(cpulist@, ',')) == Ok::<Seq<usize>, Seq<char>>(v@),
            Err(e) => e.kind == IoErrorKind::InvalidData && cpu_list_spec(split_fields(cpulist@, ','))
                == Err::<Seq<usize>, Seq<char>>(e.message@),
        },
{
    let chars = chars_of(cpulist);
    let parts = split_chars(&chars, ',');
    let ghost ps = char_rows(parts@);
    let mut cpus: Vec<usize> = Vec::new();
    let mut i: usize = 0;
    proof {
        assert(ps.subrange(0, 0) =~= Seq::<Seq<char>>::empty());
    }
    while i < parts.len()
        invariant
            i <= parts.len(),
            ps == char_rows(parts@),
            ps == split_fields(cpulist@, ','),
            cpu_list_spec(ps.subrange(0, i as int)) == Ok::<Seq<usize>, Seq<char>>(cpus@),
        decreases parts.len() - i,
    {
        let part = &parts[i];
        let ghost next = ps.subrange(0, i + 1);
        proof {
            assert(next.drop_last() =~= ps.subrange(0, i as int));
            assert(next.last() == part@);
        }
        if has_dash(part) {
            let range = split_chars(part, '-');
            proof {
                assert(char_rows(range@).len() == range.len());
            }
            if range.len() == 2 {
                proof {
                    assert(char_rows(range@)[0] == range[0]@);
                    assert(char_rows(range@)[1] == range[1]@);
                }
                let start = match parse_usize(&range[0]) {
                    Some(v) => v,
                    None => {
                        proof {
                            lemma_error_sticks(ps, i + 1, "Invalid CPU range"@);
                        }
                        return Err(IoError::new(IoErrorKind::InvalidData, "Invalid CPU range"));
                    },
                };
                let end = match parse_usize(&range[1]) {
                    Some(v) => v,
                    None => {
                        proof {
                            lemma_error_sticks(ps, i + 1, "Invalid CPU range"@);
                        }
                        return Err(IoError::new(IoErrorKind::InvalidData, "Invalid CPU range"));
                    },
                };
                push_range(&mut cpus, start, end);
            } else {
                proof {
                    assert(cpus@ + Seq::<usize>::empty() =~= cpus@);
                }
            }
        } else {
            match parse_usize(part) {
                Some(c) => {
                    let ghost before = cpus@;
                    cpus.push(c);
                    proof {
                        assert(cpus@ =~= before + seq![c]);
                    }
                },
                None => {
                    proof {
                        lemma_error_sticks(ps, i + 1, "Invalid CPU number"@);
                    }
                    return Err(IoError::new(IoErrorKind::InvalidData, "Invalid CPU number"));
                },
            }
        }
        i = i + 1;
    }
    proof {
        assert(ps.subrange(0, parts.len() as int) =~= ps);
    }
    Ok(cpus)
}

/// A directory name of a NUMA node: `node` followed by digits only.
pub open spec fn is_node_name(n: Seq<char>) -> bool {
    starts_with(n, "node"@) && all_digits(n.subrange(4, n.len() as int))
}

/// How many of the names are NUMA node names.
pub open spec fn node_name_count(names: Seq<Seq<char>>) -> nat
    decreases names.len(),
{
    if names.len() == 0 {
        0
    } else {
        node_name_count(names.drop_last()) + if is_node_name(names.last()) { 1nat } else { 0nat }
    }
}

/// The text of each name.
pub open spec fn name_texts(v: Seq<String>) -> Seq<Seq<char>> {
    v.map_values(|s: String| s@)
}

fn node_name(name: &str) -> (r: bool)
    ensures
        r == is_node_name(name@),
{
    let chars = chars_of(name);
    if !crate::parse::has_prefix(&chars, "node") {
        return false;
    }
    proof {
        reveal_strlit("node");
    }
    let mut i: usize = 4;
    while i < chars.len()
        invariant
            4 <= i <= chars.len(),
            chars@ == name@,
            forall|k: int| 4 <= k < i ==> crate::parse::is_digit(#[trigger] chars@[k]),
        decreases chars.len() - i,
    {
        let c = chars[i];
        if !('0' <= c && c <= '9') {
            proof {
                assert(chars@.subrange(4, chars@.len() as int)[i - 4] == c);
            }
            return false;
        }
        i = i + 1;
    }
    proof {
        assert forall|k: int| 0 <= k < chars@.subrange(4, chars@.len() as int).len() implies crate::parse::is_digit(
            #[trigger] chars@.subrange(4, chars@.len() as int)[k],
        ) by {
            assert(chars@.subrange(4, chars@.len() as int)[k] == chars@[k + 4]);
        }
    }
    true
}

/// The number of NUMA nodes, from the names in the system's node directory,
/// or 1 (a single node) when the directory could not be read.
pub fn numa_node_count(entry_names: Option<&Vec<String>>) -> (r: usize)
    ensures
        match entry_names {
            Some(names) => r == node_name_count(name_texts(names@)),
            None => r == 1,
        },
{
    match entry_names {
        None => 1,
        Some(names) => {
            let ghost ns = name_texts(names@);
            let mut count: usize = 0;
            let mut i: usize = 0;
            proof {
                assert(ns.subrange(0, 0) =~= Seq::<Seq<char>>::empty());
            }
            while i < names.len()
                invariant
                    i <= names.len(),
                    ns == name_texts(names@),
                    count == node_name_count(ns.subrange(0, i as int)),
                    count <= i,
                decreases names.len() - i,
            {
                proof {
                    assert(ns.subrange(0, i + 1).drop_last() =~= ns.subrange(0, i as int));
                    assert(ns.subrange(0, i + 1).last() == names@[i as int]@);
                }
                if node_name(names[i].as_str()) {
                    count = count + 1;
                }
                i = i + 1;
            }
            proof {
                assert(ns.subrange(0, names.len() as int) =~= ns);
            }
            count
        },
    }
}

/// The CPU a process last ran on, from the text of its `stat` file: the
/// thirty-ninth white-space separated field, when it is a number.
pub open spec fn stat_cpu_spec(stat: Seq<char>) -> Option<usize> {
    if words(stat).len() > 38 {
        parse_usize_spec(words(stat)[38])
    } else {
        None
    }
}

/// Reads the CPU a process last ran on from the text of its `stat` file.
pub fn stat_cpu(stat: &str) -> (r: Option<usize>)
    ensures
        r == stat_cpu_spec(stat@),
{
    let chars = chars_of(stat);
    let fields = split_words(&chars);
    if fields.len() > 38 {
        proof {
            assert(char_rows(fields@)[38] == fields[38]@);
        }
        parse_usize(&fields[38])
    } else {
        None
    }
}

/// The NUMA node of a CPU: read from the text of the CPU's node file when
/// there is one, otherwise estimated as eight CPUs per node.
pub open spec fn cpu_node_spec(cpu: usize, node_file: Option<Seq<char>>) -> Option<usize> {
    match node_file {
        Some(text) => parse_usize_spec(trimmed(text)),
        None => Some(cpu / 8),
    }
}

/// The NUMA node of a CPU, from the text of its node file if it has one.
///
/// # Errors
///
/// An `InvalidData` error, "Invalid NUMA node", when the file's text is not
/// a number.
pub fn get_cpu_numa_node(cpu: usize, node_file: Option<&str>) -> (r: Result<usize, IoError>)
    ensures
        match r {
            Ok(n) => cpu_node_spec(cpu, match node_file {
                Some(t) => Some(t@),
                None => None,
            }) == Some(n),
            Err(e) => e.kind == IoErrorKind::InvalidData && e.message@ == "Invalid NUMA node"@ && cpu_node_spec(
                cpu,
                match node_file {
                    Some(t) => Some(t@),
                    None => None,
                },
            ) is None,
        },
{
    match node_file {
        None => Ok(cpu / 8),
        Some(text) => {
            let chars = chars_of(text);
            let t = trim_chars(&chars);
            match parse_usize(&t) {
                Some(n) => Ok(n),
                None => Err(IoError::new(IoErrorKind::InvalidData, "Invalid NUMA node")),
            }
        },
    }
}

/// The CPUs of a list that fit in an affinity mask (below 1024), in order.
pub open spec fn maskable_cpus(cpus: Seq<usize>) -> Seq<usize>
    decreases cpus.len(),
{
    if cpus.len() == 0 {
        Seq::empty()
    } else if cpus.last() < 1024 {
        maskable_cpus(cpus.drop_last()).push(cpus.last())
    } else {
        maskable_cpus(cpus.drop_last())
    }
}

/// The CPUs to bind to for NUMA node `node`, given the CPUs the node lists:
/// those that fit in an affinity mask.
///
/// # Errors
///
/// An `InvalidInput` error, "No CPUs found for NUMA node N", when the node
/// lists no CPU.
pub fn affinity_cpus(node: usize, cpus: &Vec<usize>) -> (r: Result<Vec<usize>, IoError>)
    ensures
        match r {
            Ok(mask) => cpus@.len() > 0 && mask@ == maskable_cpus(cpus@),
            Err(e) => cpus@.len() == 0 && e.kind == IoErrorKind::InvalidInput && e.message@
                == "No CPUs found for NUMA node "@ + decimal(node as nat),
        },
{
    if cpus.len() == 0 {
        let mut message = String::new();
        message.append("No CPUs found for NUMA node ");
        push_decimal(&mut message, node as u64);
        proof {
            reveal_strlit("No CPUs found for NUMA node ");
        }
        return Err(IoError { kind: IoErrorKind::InvalidInput, message });
    }
    let mut mask: Vec<usize> = Vec::new();
    let mut i: usize = 0;
    while i < cpus.len()
        invariant
            0 <= i <= cpus@.len(),
            mask@ == maskable_cpus(cpus@.take(i as int)),
        decreases cpus@.len() - i,
    {
        proof {
            assert(cpus@.take(i + 1).drop_last() == cpus@.take(i as int));
        }
        if cpus[i] < 1024 {
            mask.push(cpus[i]);
        }
        i = i + 1;
    }
    proof {
        assert(cpus@.take(cpus@.len() as int) == cpus@);
    }
    Ok(mask)
}

/// NUMA is worth using when the node directory lists more than one entry;
/// `None` when the directory cannot be read.
pub fn numa_available(node_dir_entries: Option<usize>) -> (r: bool)
    ensures
        r == (match node_dir_entries {
            Some(n) => n > 1,
            None => false,
        }),
{
    match node_dir_entries {
        Some(n) => n > 1,
        None => false,
    }
}

} // verus!
