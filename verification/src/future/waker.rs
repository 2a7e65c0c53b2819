//! Waker registry for managing async operation notifications.

use vstd::prelude::*;
use std::task::Waker;

verus! {

/// A task's `Waker`, opaque to the proofs.
#[verifier::external_type_specification]
#[verifier::external_body]
pub struct ExWaker(Waker);

/// Whether some entry has the key.
pub open spec fn has_key(s: Seq<(u64, Waker)>, k: u64) -> bool {
    exists|i: int| 0 <= i < s.len() && s[i].0 == k
}

/// The position of an entry with the key.
pub open spec fn slot(s: Seq<(u64, Waker)>, k: u64) -> int {
    choose|i: int| 0 <= i < s.len() && s[i].0 == k
}

/// No key appears twice.
pub open spec fn distinct_keys(s: Seq<(u64, Waker)>) -> bool {
    forall|i: int, j: int| 0 <= i < j < s.len() ==> s[i].0 != s[j].0
}

/// The entries as a map from operation ID to waker.
pub open spec fn as_map(s: Seq<(u64, Waker)>) -> Map<u64, Waker> {
    Map::new(|k: u64| has_key(s, k), |k: u64| s[slot(s, k)].1)
}

/// The keys of the entries, in order.
pub open spec fn keys_of(s: Seq<(u64, Waker)>) -> Seq<u64> {
    s.map_values(|p: (u64, Waker)| p.0)
}

proof fn lemma_slot(s: Seq<(u64, Waker)>, i: int)
    requires
        distinct_keys(s),
        0 <= i < s.len(),
    ensures
        has_key(s, s[i].0),
        slot(s, s[i].0) == i,
{
    let k = s[i].0;
    assert(has_key(s, k));
    let c = slot(s, k);
    if c != i {
        if c < i {
            assert(s[c].0 != s[i].0);
        } else {
            assert(s[i].0 != s[c].0);
        }
    }
}

proof fn lemma_count(s: Seq<(u64, Waker)>)
    requires
        distinct_keys(s),
    ensures
        as_map(s).dom().len() == s.len(),
        as_map(s).dom().finite(),
{
    let ks = keys_of(s);
    assert(ks.no_duplicates()) by {
        assert forall|i: int, j: int| 0 <= i < ks.len() && 0 <= j < ks.len() && i != j implies ks[i] != ks[j] by {
            if i < j {
                assert(s[i].0 != s[j].0);
            } else {
                assert(s[j].0 != s[i].0);
            }
        }
    }
    ks.unique_seq_to_set();
    assert(as_map(s).dom() =~= ks.to_set()) by {
        assert forall|k: u64| as_map(s).dom().contains(k) <==> ks.to_set().contains(k) by {
            if has_key(s, k) {
                let i = choose|i: int| 0 <= i < s.len() && s[i].0 == k;
                assert(ks[i] == k);
            }
            if ks.contains(k) {
                let i = choose|i: int| 0 <= i < ks.len() && ks[i] == k;
                assert(s[i].0 == k);
            }
        }
    }
}

/// The wakers of pending operations, by operation ID.
#[derive(Debug, Default)]
pub struct WakerRegistry {
    wakers: Vec<(u64, Waker)>,
}

impl WakerRegistry {
    /// The registered wakers, by operation ID.
    pub closed spec fn view(&self) -> Map<u64, Waker> {
        as_map(self.wakers@)
    }

    /// Each operation has at most one waker.
    pub closed spec fn wf(&self) -> bool {
        distinct_keys(self.wakers@)
    }

    /// An empty registry.
    pub fn new() -> (r: Self)
        ensures
            r.wf(),
            r@ == Map::<u64, Waker>::empty(),
    {
        let r = WakerRegistry { wakers: Vec::new() };
        proof {
            assert(r@ =~= Map::<u64, Waker>::empty());
        }
        r
    }

    fn find(&self, operation_id: u64) -> (r: Option<usize>)
        ensures
            r matches Some(i) ==> (i < self.wakers@.len() && self.wakers@[i as int].0 == operation_id),
            r is None ==> !has_key(self.wakers@, operation_id),
    {
        let mut i: usize = 0;
        while i < self.wakers.len()
            invariant
                i <= self.wakers.len(),
                forall|k: int| 0 <= k < i ==> self.wakers@[k].0 != operation_id,
            decreases self.wakers.len() - i,
        {
            if self.wakers[i].0 == operation_id {
                return Some(i);
            }
            i = i + 1;
        }
        None
    }

    /// Registers the waker for an operation, replacing any earlier one.
    pub fn register_waker(&mut self, operation_id: u64, waker: Waker)
        requires
            old(self).wf(),
        ensures
            final(self).wf(),
            final(self)@ == old(self)@.insert(operation_id, waker),
    {
        let ghost before = self.wakers@;
        match self.find(operation_id) {
            Some(i) => {
                self.wakers.set(i, (operation_id, waker));
                proof {
                    let after = self.wakers@;
                    assert(distinct_keys(after)) by {
                        assert forall|a: int, b: int| 0 <= a < b < after.len() implies after[a].0 != after[b].0 by {
                            assert(after[a].0 == before[a].0);
                            assert(after[b].0 == before[b].0);
                        }
                    }
                    assert forall|k: u64| #[trigger] has_key(after, k) == has_key(before, k) by {
                        if has_key(after, k) {
                            let j = choose|j: int| 0 <= j < after.len() && after[j].0 == k;
                            assert(before[j].0 == k);
                        }
                        if has_key(before, k) {
                            let j = choose|j: int| 0 <= j < before.len() && before[j].0 == k;
                            assert(after[j].0 == k);
                        }
                    }
                    assert forall|k: u64| has_key(after, k) implies after[slot(after, k)].1 == #[trigger] old(
                        self,
                    )@.insert(operation_id, waker)[k] by {
                        let j = choose|j: int| 0 <= j < after.len() && after[j].0 == k;
                        lemma_slot(after, j);
                        lemma_slot(before, j);
                    }
                    assert(self@ =~= old(self)@.insert(operation_id, waker));
                }
            },
            None => {
                self.wakers.push((operation_id, waker));
                proof {
                    let after = self.wakers@;
                    assert(distinct_keys(after)) by {
                        assert forall|a: int, b: int| 0 <= a < b < after.len() implies after[a].0 != after[b].0 by {
                            if b == after.len() - 1 {
                                assert(before[a].0 == after[a].0);
                            } else {
                                assert(after[a] == before[a]);
                                assert(after[b] == before[b]);
                            }
                        }
                    }
                    assert forall|k: u64| #[trigger] has_key(after, k) == (has_key(before, k) || k == operation_id) by {
                        if has_key(after, k) {
                            let j = choose|j: int| 0 <= j < after.len() && after[j].0 == k;
                            if j < before.len() {
                                assert(before[j].0 == k);
                            }
                        }
                        if has_key(before, k) {
                            let j = choose|j: int| 0 <= j < before.len() && before[j].0 == k;
                            assert(after[j].0 == k);
                        }
                        if k == operation_id {
                            assert(after[after.len() - 1].0 == k);
                        }
                    }
                    assert forall|k: u64| has_key(after, k) implies after[slot(after, k)].1 == #[trigger] old(
                        self,
                    )@.insert(operation_id, waker)[k] by {
                        let j = choose|j: int| 0 <= j < after.len() && after[j].0 == k;
                        lemma_slot(after, j);
                        if j < before.len() {
                            assert(after[j] == before[j]);
                            lemma_slot(before, j);
                        }
                    }
                    assert(self@ =~= old(self)@.insert(operation_id, waker));
                }
            },
        }
    }

    fn take(&mut self, operation_id: u64) -> (r: Option<Waker>)
        requires
            old(self).wf(),
        ensures
            final(self).wf(),
            final(self)@ == old(self)@.remove(operation_id),
            old(self)@.dom().contains(operation_id) ==> r == Some(old(self)@[operation_id]),
            !old(self)@.dom().contains(operation_id) ==> r is None,
    {
        let ghost before = self.wakers@;
        match self.find(operation_id) {
            Some(i) => {
                let (_, w) = self.wakers.remove(i);
                proof {
                    let after = self.wakers@;
                    lemma_slot(before, i as int);
                    assert(after =~= before.remove(i as int));
                    assert(distinct_keys(after)) by {
                        assert forall|a: int, b: int| 0 <= a < b < after.len() implies after[a].0 != after[b].0 by {
                            let a2 = if a < i { a } else { a + 1 };
                            let b2 = if b < i { b } else { b + 1 };
                            assert(after[a] == before[a2]);
                            assert(after[b] == before[b2]);
                        }
                    }
                    assert forall|k: u64| #[trigger] has_key(after, k) == (has_key(before, k) && k != operation_id) by {
                        if has_key(after, k) {
                            let j = choose|j: int| 0 <= j < after.len() && after[j].0 == k;
                            let j2 = if j < i { j } else { j + 1 };
                            assert(before[j2].0 == k);
                            assert(j2 != i);
                        }
                        if has_key(before, k) && k != operation_id {
                            let j = choose|j: int| 0 <= j < before.len() && before[j].0 == k;
                            assert(j != i);
                            let j2 = if j < i { j } else { j - 1 };
                            assert(after[j2].0 == k);
                        }
                    }
                    assert forall|k: u64| has_key(after, k) implies after[slot(after, k)].1 == #[trigger] old(
                        self,
                    )@.remove(operation_id)[k] by {
                        let j = choose|j: int| 0 <= j < after.len() && after[j].0 == k;
                        lemma_slot(after, j);
                        let j2 = if j < i { j } else { j + 1 };
                        assert(after[j] == before[j2]);
                        lemma_slot(before, j2);
                    }
                    assert(self@ =~= old(self)@.remove(operation_id));
                }
                Some(w)
            },
            None => {
                proof {
                    assert(self@ =~= old(self)@.remove(operation_id));
                }
                None
            },
        }
    }

    /// Takes the operation's waker out of the registry, for the caller to
    /// wake; `None` when the operation has no waker.
    pub fn wake_operation(&mut self, operation_id: u64) -> (r: Option<Waker>)
        requires
            old(self).wf(),
        ensures
            final(self).wf(),
            final(self)@ == old(self)@.remove(operation_id),
            r == (if old(self)@.dom().contains(operation_id) {
                Some(old(self)@[operation_id])
            } else {
                None
            }),
    {
        self.take(operation_id)
    }

    /// Forgets the operation's waker without waking it; `false` when it has
    /// none.
    pub fn remove_waker(&mut self, operation_id: u64) -> (r: bool)
        requires
            old(self).wf(),
        ensures
            final(self).wf(),
            r == old(self)@.dom().contains(operation_id),
            final(self)@ == old(self)@.remove(operation_id),
    {
        match self.take(operation_id) {
            Some(_) => true,
            None => false,
        }
    }

    /// The number of registered wakers.
    pub fn waker_count(&self) -> (r: usize)
        requires
            self.wf(),
        ensures
            r == self@.dom().len(),
    {
        proof {
            lemma_count(self.wakers@);
        }
        self.wakers.len()
    }

    /// Whether any waker is registered.
    pub fn has_wakers(&self) -> (r: bool)
        requires
            self.wf(),
        ensures
            r == (self@.dom().len() > 0),
    {
        proof {
            lemma_count(self.wakers@);
        }
        self.wakers.len() > 0
    }
}

/// A registered waker is found again: taking it out for waking hands back
/// the waker registered last and leaves one waker fewer; registering twice
/// keeps only the second waker.
pub proof fn lemma_register_then_wake(m: Map<u64, Waker>, id: u64, first: Waker, second: Waker)
    requires
        m.dom().finite(),
    ensures
        m.insert(id, first).dom().contains(id),
        m.insert(id, first).remove(id) == m.remove(id),
        !m.dom().contains(id) ==> m.insert(id, first).remove(id).dom().len() == m.dom().len(),
        m.insert(id, first).insert(id, second)[id] == second,
        m.insert(id, first)[id] == first,
        m.insert(id, first).insert(id, second).dom() == m.insert(id, second).dom(),
{
    assert(m.insert(id, first).remove(id) =~= m.remove(id));
    assert(m.insert(id, first).insert(id, second).dom() =~= m.insert(id, second).dom());
    if !m.dom().contains(id) {
        assert(m.remove(id) =~= m);
    }
}

} // verus!
