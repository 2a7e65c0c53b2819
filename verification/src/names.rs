//! Lists of feature names selected by flags.

use vstd::prelude::*;
use vstd::string::*;
use crate::text::str_eq;

verus! {

/// The text of each name in a list of names.
pub open spec fn names_view(v: Seq<&str>) -> Seq<Seq<char>> {
    v.map_values(|s: &str| s@)
}

/// A table of flags and names, with the names as text.
pub open spec fn table_view(t: Seq<(bool, &str)>) -> Seq<(bool, Seq<char>)> {
    t.map_values(|p: (bool, &str)| (p.0, p.1@))
}

/// The names whose flag is set, in table order.
pub open spec fn enabled_names_spec(t: Seq<(bool, Seq<char>)>) -> Seq<Seq<char>>
    decreases t.len(),
{
    if t.len() == 0 {
        Seq::empty()
    } else {
        let rest = enabled_names_spec(t.drop_last());
        if t.last().0 { rest.push(t.last().1) } else { rest }
    }
}

/// Collects the names whose flag is set, in table order.
pub fn enabled_names(table: &Vec<(bool, &'static str)>) -> (r: Vec<&'static str>)
    ensures
        names_view(r@) == enabled_names_spec(table_view(table@)),
{
    let mut out: Vec<&'static str> = Vec::new();
    let mut i: usize = 0;
    proof {
        assert(table_view(table@).subrange(0, 0) =~= Seq::<(bool, Seq<char>)>::empty());
        assert(names_view(out@) =~= Seq::<Seq<char>>::empty());
    }
    while i < table.len()
        invariant
            i <= table.len(),
            names_view(out@) == enabled_names_spec(table_view(table@).subrange(0, i as int)),
        decreases table.len() - i,
    {
        let (flag, name) = table[i];
        let ghost prefix = table_view(table@).subrange(0, i as int);
        let ghost next = table_view(table@).subrange(0, i + 1);
        proof {
            assert(next.drop_last() =~= prefix);
            assert(next.last() == (flag, name@));
        }
        if flag {
            let ghost before = out@;
            out.push(name);
            proof {
                assert(names_view(out@) =~= names_view(before).push(name@));
            }
        }
        i = i + 1;
    }
    proof {
        assert(table_view(table@).subrange(0, table.len() as int) =~= table_view(table@));
    }
    out
}

/// Selecting names never yields more names than the table holds.
pub proof fn lemma_enabled_names_len(t: Seq<(bool, Seq<char>)>)
    ensures
        enabled_names_spec(t).len() <= t.len(),
    decreases t.len(),
{
    if t.len() > 0 {
        lemma_enabled_names_len(t.drop_last());
    }
}

/// Some entry named `name` has its flag set.
pub open spec fn flag_of(t: Seq<(bool, Seq<char>)>, name: Seq<char>) -> bool {
    exists|i: int| 0 <= i < t.len() && (#[trigger] t[i]).1 == name && t[i].0
}

/// Whether some entry named `name` has its flag set.
pub fn lookup_flag(table: &Vec<(bool, &'static str)>, name: &str) -> (r: bool)
    ensures
        r == flag_of(table_view(table@), name@),
{
    let ghost tv = table_view(table@);
    let mut i: usize = 0;
    while i < table.len()
        invariant
            i <= table.len(),
            tv == table_view(table@),
            forall|k: int| 0 <= k < i ==> !((#[trigger] tv[k]).1 == name@ && tv[k].0),
        decreases table.len() - i,
    {
        let (flag, entry) = table[i];
        proof {
            assert(tv[i as int] == (flag, entry@));
        }
        if flag && str_eq(entry, name) {
            return true;
        }
        i = i + 1;
    }
    false
}

/// Every selected name is one of the table's names.
pub proof fn lemma_enabled_names_in_table(t: Seq<(bool, Seq<char>)>, name: Seq<char>)
    ensures
        enabled_names_spec(t).contains(name) ==> exists|i: int| 0 <= i < t.len() && (#[trigger] t[i]).1 == name && t[i].0,
    decreases t.len(),
{
    if t.len() > 0 {
        let d = t.drop_last();
        lemma_enabled_names_in_table(d, name);
        if enabled_names_spec(d).contains(name) {
            let i = choose|i: int| 0 <= i < d.len() && (#[trigger] d[i]).1 == name && d[i].0;
            assert(t[i] == d[i]);
        }
        if t.last().0 && t.last().1 == name {
            assert(t[t.len() - 1] == t.last());
        }
    }
}

/// A name whose flag is set is among the selected names.
pub proof fn lemma_flag_of_enabled(t: Seq<(bool, Seq<char>)>, name: Seq<char>)
    ensures
        flag_of(t, name) ==> enabled_names_spec(t).contains(name),
    decreases t.len(),
{
    if t.len() > 0 && flag_of(t, name) {
        let d = t.drop_last();
        let rest = enabled_names_spec(d);
        let i = choose|i: int| 0 <= i < t.len() && (#[trigger] t[i]).1 == name && t[i].0;
        if i == t.len() - 1 {
            assert(rest.push(name)[rest.len() as int] == name);
        } else {
            assert(d[i] == t[i]);
            lemma_flag_of_enabled(d, name);
            let k = choose|k: int| 0 <= k < rest.len() && rest[k] == name;
            if t.last().0 {
                assert(rest.push(t.last().1)[k] == name);
            }
        }
    }
}

/// The selected names are exactly the names whose flag is set.
pub proof fn lemma_enabled_iff_flag(t: Seq<(bool, Seq<char>)>, name: Seq<char>)
    ensures
        enabled_names_spec(t).contains(name) <==> flag_of(t, name),
{
    lemma_flag_of_enabled(t, name);
    lemma_enabled_names_in_table(t, name);
}

/// Where no two entries share a name, no name is selected twice.
pub proof fn lemma_enabled_names_distinct(t: Seq<(bool, Seq<char>)>)
    requires
        forall|i: int, j: int|
            0 <= i < t.len() && 0 <= j < t.len() && i != j ==> (#[trigger] t[i]).1 != (#[trigger] t[j]).1,
    ensures
        enabled_names_spec(t).no_duplicates(),
    decreases t.len(),
{
    if t.len() > 0 {
        let d = t.drop_last();
        assert forall|i: int, j: int|
            0 <= i < d.len() && 0 <= j < d.len() && i != j implies (#[trigger] d[i]).1 != (#[trigger] d[j]).1 by {
            assert(d[i] == t[i]);
            assert(d[j] == t[j]);
        }
        lemma_enabled_names_distinct(d);
        let rest = enabled_names_spec(d);
        let x = t.last().1;
        if t.last().0 {
            lemma_enabled_names_in_table(d, x);
            if rest.contains(x) {
                let i = choose|i: int| 0 <= i < d.len() && (#[trigger] d[i]).1 == x && d[i].0;
                assert(t[i] == d[i]);
                assert(t[t.len() - 1] == t.last());
            }
            let r = rest.push(x);
            assert forall|a: int, b: int| 0 <= a < r.len() && 0 <= b < r.len() && a != b implies r[a] != r[b] by {
                if a == rest.len() {
                    if r[b] == x {
                        assert(rest[b] == x);
                    }
                } else if b == rest.len() {
                    if r[a] == x {
                        assert(rest[a] == x);
                    }
                } else {
                    assert(r[a] == rest[a] && r[b] == rest[b]);
                }
            }
        }
    }
}

/// Selecting names from two tables that name the same features, where each
/// flag of the first implies the flag of the second, selects no more from
/// the first.
pub proof fn lemma_enabled_names_len_mono(t1: Seq<(bool, Seq<char>)>, t2: Seq<(bool, Seq<char>)>)
    requires
        t1.len() == t2.len(),
        forall|i: int| 0 <= i < t1.len() ==> (#[trigger] t1[i]).0 ==> t2[i].0,
    ensures
        enabled_names_spec(t1).len() <= enabled_names_spec(t2).len(),
    decreases t1.len(),
{
    if t1.len() > 0 {
        let d1 = t1.drop_last();
        let d2 = t2.drop_last();
        assert forall|i: int| 0 <= i < d1.len() && (#[trigger] d1[i]).0 implies d2[i].0 by {
            assert(d1[i] == t1[i]);
            assert(d2[i] == t2[i]);
        }
        lemma_enabled_names_len_mono(d1, d2);
        assert(t1.last() == t1[t1.len() - 1]);
    }
}

} // verus!
