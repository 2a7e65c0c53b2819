//! The bookkeeping of a batch of operations polled as one future.
//!
//! A batch holds one result slot per operation. Completions fill the slots;
//! with fail-fast, the first failure cancels what is left. Operations may
//! depend on others, and the operations that depend, directly or through
//! others, on a failed one can be cancelled together.

use std::collections::HashMap;

use vstd::prelude::*;
use vstd::std_specs::iter::IteratorSpec;

verus! {

broadcast use vstd::std_specs::hash::group_hash_axioms;

/// How one operation of a batch ended.
#[derive(Debug, PartialEq, Eq)]
pub enum OperationResult {
    /// It completed with this value (bytes moved, or a descriptor).
    Success(i32),
    /// It failed with this message.
    Error(String),
    /// It was cancelled before it completed.
    Cancelled,
}

impl Clone for OperationResult {
    /// The same result.
    fn clone(&self) -> (r: Self)
        ensures
            r == *self,
    {
        match self {
            OperationResult::Success(v) => OperationResult::Success(*v),
            OperationResult::Error(m) => OperationResult::Error(m.clone()),
            OperationResult::Cancelled => OperationResult::Cancelled,
        }
    }
}

impl OperationResult {
    /// Whether the operation completed successfully.
    pub fn is_success(&self) -> (r: bool)
        ensures
            r == (self is Success),
    {
        matches!(self, OperationResult::Success(_))
    }
}

/// The results of a whole batch, one per operation, in batch order.
#[derive(Debug, Clone)]
pub struct BatchResult {
    /// The result of each operation.
    pub results: Vec<OperationResult>,
}

impl BatchResult {
    /// The batch result made of `results`.
    pub fn new(results: Vec<OperationResult>) -> (r: Self)
        ensures
            r.results@ == results@,
    {
        BatchResult { results }
    }
}

/// Operation `dependent` lists `dependency` among the operations it waits for.
pub open spec fn depends_on(
    dependencies: Map<usize, Vec<usize>>,
    dependent: usize,
    dependency: usize,
) -> bool {
    dependencies.contains_key(dependent) && dependencies[dependent]@.contains(dependency)
}

/// A chain of operations each of which depends on the one before it.
pub open spec fn is_chain(dependencies: Map<usize, Vec<usize>>, chain: Seq<usize>) -> bool {
    &&& chain.len() >= 1
    &&& forall|i: int|
        0 <= i < chain.len() - 1 ==> #[trigger] depends_on(dependencies, chain[i + 1], chain[i])
}

/// Operation `op` depends on `root`, directly or through other operations.
pub open spec fn transitively_depends(
    dependencies: Map<usize, Vec<usize>>,
    op: usize,
    root: usize,
) -> bool {
    exists|chain: Seq<usize>|
        #![trigger is_chain(dependencies, chain), chain.last()]
        is_chain(dependencies, chain) && chain.len() >= 2 && chain[0] == root && chain.last() == op
}

/// `op` is `root` itself or depends on it.
pub open spec fn reaches(dependencies: Map<usize, Vec<usize>>, root: usize, op: usize) -> bool {
    op == root || transitively_depends(dependencies, op, root)
}

/// Every operation named in the dependency lists, as dependent or as
/// dependency, is one of the `n` operations of the batch.
pub open spec fn dependencies_within(dependencies: Map<usize, Vec<usize>>, n: nat) -> bool {
    forall|d: usize| #[trigger]
        dependencies.contains_key(d) ==> d < n && forall|j: int|
            0 <= j < dependencies[d]@.len() ==> #[trigger] dependencies[d]@[j] < n
}

/// The slots after cancelling, for a failed operation, every operation
/// that depends on it (other than itself) and has no result yet.
pub open spec fn cancel_dependents_spec(
    results: Seq<Option<OperationResult>>,
    dependencies: Map<usize, Vec<usize>>,
    failed: usize,
) -> Seq<Option<OperationResult>> {
    Seq::new(
        results.len(),
        |i: int|
            if results[i] is None && i != failed && transitively_depends(
                dependencies,
                i as usize,
                failed,
            ) {
                Some(OperationResult::Cancelled)
            } else {
                results[i]
            },
    )
}

/// The slots after cancelling every operation that has no result yet.
pub open spec fn cancel_all_spec(results: Seq<Option<OperationResult>>) -> Seq<
    Option<OperationResult>,
> {
    Seq::new(
        results.len(),
        |i: int|
            if results[i] is None {
                Some(OperationResult::Cancelled)
            } else {
                results[i]
            },
    )
}

/// Every slot holds a result.
pub open spec fn all_filled(results: Seq<Option<OperationResult>>) -> bool {
    forall|i: int| 0 <= i < results.len() ==> (#[trigger] results[i]) is Some
}

/// The batch result of the slots, an empty slot counting as cancelled.
pub open spec fn collected(results: Seq<Option<OperationResult>>) -> Seq<OperationResult> {
    Seq::new(
        results.len(),
        |i: int|
            match results[i] {
                Some(r) => r,
                None => OperationResult::Cancelled,
            },
    )
}

/// A chain to `op` extended by an operation that depends on `op`.
proof fn lemma_extend_reach(
    dependencies: Map<usize, Vec<usize>>,
    root: usize,
    op: usize,
    dependent: usize,
)
    requires
        reaches(dependencies, root, op),
        depends_on(dependencies, dependent, op),
    ensures
        transitively_depends(dependencies, dependent, root),
{
    if op == root {
        let chain = seq![root, dependent];
        assert(chain[1] == dependent);
        assert(depends_on(dependencies, chain[1], chain[0]));
        assert(is_chain(dependencies, chain));
        assert(chain.last() == dependent);
        assert(chain.len() >= 2 && chain[0] == root);
    } else {
        let chain = choose|chain: Seq<usize>|
            #![trigger is_chain(dependencies, chain), chain.last()]
            is_chain(dependencies, chain) && chain.len() >= 2 && chain[0] == root && chain.last()
                == op;
        let longer = chain.push(dependent);
        assert forall|i: int| 0 <= i < longer.len() - 1 implies #[trigger] depends_on(
            dependencies,
            longer[i + 1],
            longer[i],
        ) by {
            if i < chain.len() - 1 {
                assert(depends_on(dependencies, chain[i + 1], chain[i]));
            }
        }
        assert(is_chain(dependencies, longer));
        assert(longer.last() == dependent);
        assert(longer.len() >= 2 && longer[0] == root);
    }
}

/// The last operation of a chain from `root` lies in every set that holds
/// `root` and, with each operation, every operation depending on it.
proof fn lemma_closed_set_holds_chain(
    dependencies: Map<usize, Vec<usize>>,
    marked: Seq<bool>,
    chain: Seq<usize>,
)
    requires
        is_chain(dependencies, chain),
        chain[0] < marked.len(),
        marked[chain[0] as int],
        forall|v: usize, d: usize|
            #![trigger depends_on(dependencies, d, v), marked[v as int]]
            v < marked.len() && marked[v as int] && depends_on(dependencies, d, v) ==> d
                < marked.len() && marked[d as int],
    ensures
        chain.last() < marked.len(),
        marked[chain.last() as int],
    decreases chain.len(),
{
    if chain.len() > 1 {
        let prefix = chain.drop_last();
        assert forall|i: int| 0 <= i < prefix.len() - 1 implies #[trigger] depends_on(
            dependencies,
            prefix[i + 1],
            prefix[i],
        ) by {
            assert(depends_on(dependencies, chain[i + 1], chain[i]));
        }
        lemma_closed_set_holds_chain(dependencies, marked, prefix);
        let k = chain.len() - 2;
        assert(depends_on(dependencies, chain[k + 1], chain[k]));
    }
}

/// Cancelling what is left settles a batch: afterwards every operation has
/// a result, and every result that was there is unchanged.
pub proof fn lemma_cancel_all_settles(results: Seq<Option<OperationResult>>)
    ensures
        all_filled(cancel_all_spec(results)),
        only_cancels(results, cancel_all_spec(results)),
{
}

/// Cancelling the dependents of a failed operation changes only empty
/// slots, leaves the failed operation's own slot alone, and leaves no empty
/// slot for any operation that depends on it.
pub proof fn lemma_cancel_dependents_scope(
    results: Seq<Option<OperationResult>>,
    dependencies: Map<usize, Vec<usize>>,
    failed: usize,
)
    requires
        failed < results.len(),
    ensures
        only_cancels(results, cancel_dependents_spec(results, dependencies, failed)),
        cancel_dependents_spec(results, dependencies, failed)[failed as int] == results[failed as int],
        forall|op: usize|
            op < results.len() && op != failed && #[trigger] transitively_depends(dependencies, op, failed)
                ==> cancel_dependents_spec(results, dependencies, failed)[op as int] is Some,
{
}

/// Whether `list` holds `x`.
fn list_contains(list: &Vec<usize>, x: usize) -> (r: bool)
    ensures
        r == list@.contains(x),
{
    let mut i: usize = 0;
    while i < list.len()
        invariant
            0 <= i <= list@.len(),
            forall|j: int| 0 <= j < i ==> list@[j] != x,
        decreases list@.len() - i,
    {
        if list[i] == x {
            return true;
        }
        i = i + 1;
    }
    false
}

/// The number of marked entries.
spec fn count_marked(marks: Seq<bool>) -> nat
    decreases marks.len(),
{
    if marks.len() == 0 {
        0
    } else {
        count_marked(marks.drop_last()) + if marks.last() {
            1nat
        } else {
            0nat
        }
    }
}

proof fn lemma_count_marked_bound(marks: Seq<bool>)
    ensures
        count_marked(marks) <= marks.len(),
    decreases marks.len(),
{
    if marks.len() > 0 {
        lemma_count_marked_bound(marks.drop_last());
    }
}

/// Marking an unmarked entry adds one to the count.
proof fn lemma_count_marked_update(marks: Seq<bool>, i: int)
    requires
        0 <= i < marks.len(),
        !marks[i],
    ensures
        count_marked(marks.update(i, true)) == count_marked(marks) + 1,
    decreases marks.len(),
{
    let updated = marks.update(i, true);
    if i == marks.len() - 1 {
        assert(updated.drop_last() == marks.drop_last());
    } else {
        assert(updated.drop_last() == marks.drop_last().update(i, true));
        lemma_count_marked_update(marks.drop_last(), i);
    }
}

/// A fresh list of `n` unmarked entries.
fn unmarked(n: usize) -> (r: Vec<bool>)
    ensures
        r@.len() == n,
        count_marked(r@) == 0,
        forall|j: int| 0 <= j < n ==> !r@[j],
{
    let mut marks: Vec<bool> = Vec::new();
    let mut k: usize = 0;
    while k < n
        invariant
            k <= n,
            marks@.len() == k,
            count_marked(marks@) == 0,
            forall|j: int| 0 <= j < k ==> !marks@[j],
        decreases n - k,
    {
        let ghost before = marks@;
        marks.push(false);
        proof {
            assert(marks@.drop_last() == before);
        }
        k = k + 1;
    }
    marks
}

/// Cancels, for the failed operation `failed_index`, every operation that
/// depends on it directly or through others and has no result yet. The
/// dependents are found by a depth-first walk over the dependency lists.
pub fn cancel_dependent_operations(
    results: &mut Vec<Option<OperationResult>>,
    dependencies: &HashMap<usize, Vec<usize>>,
    failed_index: usize,
)
    requires
        failed_index < old(results)@.len(),
        dependencies_within(dependencies@, old(results)@.len()),
    ensures
        final(results)@ == cancel_dependents_spec(old(results)@, dependencies@, failed_index),
{
    let ghost deps = dependencies@;
    let n = results.len();
    let mut visited = unmarked(n);
    let mut to_cancel: Vec<usize> = Vec::new();
    let mut stack: Vec<usize> = Vec::new();
    stack.push(failed_index);
    while stack.len() > 0
        invariant
            n == results@.len(),
            results@ == old(results)@,
            deps == dependencies@,
            dependencies_within(deps, n as nat),
            failed_index < n,
            visited@.len() == n,
            count_marked(visited@) <= n,
            forall|j: int| 0 <= j < stack@.len() ==> #[trigger] stack@[j] < n,
            visited@[failed_index as int] || (stack@ == seq![failed_index] && to_cancel@.len()
                == 0),
            forall|x: usize|
                x < n && (visited@[x as int] || stack@.contains(x)) ==> reaches(
                    deps,
                    failed_index,
                    x,
                ),
            forall|x: usize|
                x < n && (visited@[x as int] || stack@.contains(x)) && x != failed_index
                    ==> #[trigger] to_cancel@.contains(x),
            forall|x: usize| #[trigger]
                to_cancel@.contains(x) ==> x < n && x != failed_index && (visited@[x as int]
                    || stack@.contains(x)),
            forall|v: usize, d: usize|
                #![trigger depends_on(deps, d, v), visited@[v as int]]
                v < n && visited@[v as int] && depends_on(deps, d, v) ==> d < n && (
                visited@[d as int] || stack@.contains(d)),
        decreases n - count_marked(visited@), stack@.len(),
    {
        let ghost before = stack@;
        let current = stack.pop().unwrap();
        proof {
            assert(current == before.last());
            assert(stack@ == before.drop_last());
            assert forall|x: usize| #[trigger] before.contains(x) implies stack@.contains(x) || x
                == current by {
                let j = choose|j: int| 0 <= j < before.len() && before[j] == x;
                if j < before.len() - 1 {
                    assert(stack@[j] == x);
                }
            }
            assert forall|x: usize| #[trigger] stack@.contains(x) implies before.contains(x) by {
                let j = choose|j: int| 0 <= j < stack@.len() && stack@[j] == x;
                assert(before[j] == x);
            }
            assert(before.contains(current)) by {
                assert(before[before.len() - 1] == current);
            }
        }
        if visited[current] {
            continue;
        }
        proof {
            lemma_count_marked_update(visited@, current as int);
            lemma_count_marked_bound(visited@.update(current as int, true));
        }
        visited.set(current, true);
        let entries = dependencies.iter();
        let ghost listing = entries.remaining();
        proof {
            assert(listing == vstd::std_specs::hash::spec_hash_map_iter(dependencies).remaining());
        }
        for entry in it: entries
            invariant
                it.seq() == listing,
                listing == vstd::std_specs::hash::spec_hash_map_iter(dependencies).remaining(),
                n == results@.len(),
                results@ == old(results)@,
                deps == dependencies@,
                dependencies_within(deps, n as nat),
                failed_index < n,
                current < n,
                visited@.len() == n,
                visited@[current as int],
                visited@[failed_index as int],
                reaches(deps, failed_index, current),
                count_marked(visited@) <= n,
                forall|j: int| 0 <= j < stack@.len() ==> #[trigger] stack@[j] < n,
                forall|x: usize|
                    x < n && (visited@[x as int] || stack@.contains(x)) ==> reaches(
                        deps,
                        failed_index,
                        x,
                    ),
                forall|x: usize|
                    x < n && (visited@[x as int] || stack@.contains(x)) && x != failed_index
                        ==> #[trigger] to_cancel@.contains(x),
                forall|x: usize| #[trigger]
                    to_cancel@.contains(x) ==> x < n && x != failed_index && (visited@[x as int]
                        || stack@.contains(x)),
                forall|v: usize, d: usize|
                    #![trigger depends_on(deps, d, v), visited@[v as int]]
                    v < n && v != current && visited@[v as int] && depends_on(deps, d, v) ==> d
                        < n && (visited@[d as int] || stack@.contains(d)),
                forall|j: int|
                    0 <= j < it.index() && (*listing[j].1)@.contains(current) ==> *listing[j].0 < n
                        && (visited@[*listing[j].0 as int] || stack@.contains(*listing[j].0)),
        {
            let (dependent, listed) = entry;
            proof {
                assert(listing[it.index()] == entry);
                assert(deps.contains_key(*dependent) && deps[*dependent] == *listed);
            }
            if list_contains(listed, current) && !visited[*dependent] {
                proof {
                    assert(depends_on(deps, *dependent, current));
                    lemma_extend_reach(deps, failed_index, current, *dependent);
                }
                let ghost stack_before = stack@;
                let ghost cancel_before = to_cancel@;
                to_cancel.push(*dependent);
                stack.push(*dependent);
                proof {
                    assert forall|x: usize| #[trigger]
                        cancel_before.contains(x) implies to_cancel@.contains(x) by {
                        let j = choose|j: int| 0 <= j < cancel_before.len() && cancel_before[j] == x;
                        assert(to_cancel@[j] == x);
                    }
                    assert forall|x: usize| #[trigger]
                        to_cancel@.contains(x) implies cancel_before.contains(x) || x == *dependent by {
                        let j = choose|j: int| 0 <= j < to_cancel@.len() && to_cancel@[j] == x;
                        if j < cancel_before.len() {
                            assert(cancel_before[j] == x);
                        }
                    }
                    assert(to_cancel@[to_cancel@.len() - 1] == *dependent);
                    assert forall|x: usize| #[trigger]
                        stack_before.contains(x) implies stack@.contains(x) by {
                        let j = choose|j: int| 0 <= j < stack_before.len() && stack_before[j] == x;
                        assert(stack@[j] == x);
                    }
                    assert(stack@[stack@.len() - 1] == *dependent);
                    assert forall|x: usize| #[trigger]
                        stack@.contains(x) implies stack_before.contains(x) || x == *dependent by {
                        let j = choose|j: int| 0 <= j < stack@.len() && stack@[j] == x;
                        if j < stack_before.len() {
                            assert(stack_before[j] == x);
                        }
                    }
                    assert forall|x: usize|
                        x < n && (visited@[x as int] || stack@.contains(x)) && x != failed_index
                            implies #[trigger] to_cancel@.contains(x) by {
                        if x != *dependent {
                            assert(cancel_before.contains(x));
                        }
                    }
                }
            }
        }
        proof {
            assert forall|d: usize| #[trigger] depends_on(deps, d, current) implies d < n && (
            visited@[d as int] || stack@.contains(d)) by {
                assert(listing.contains((&d, &deps[d])));
                let j = choose|j: int| 0 <= j < listing.len() && listing[j] == (&d, &deps[d]);
            }
        }
    }
    proof {
        assert forall|x: usize| x < n && x != failed_index && transitively_depends(
            deps,
            x,
            failed_index,
        ) implies #[trigger] to_cancel@.contains(x) by {
            let chain = choose|chain: Seq<usize>|
                #![trigger is_chain(deps, chain), chain.last()]
                is_chain(deps, chain) && chain.len() >= 2 && chain[0] == failed_index
                    && chain.last() == x;
            lemma_closed_set_holds_chain(deps, visited@, chain);
        }
    }
    proof {
        assert forall|j: int| 0 <= j < to_cancel@.len() implies #[trigger] to_cancel@[j] < n by {
            assert(to_cancel@.contains(to_cancel@[j]));
        }
    }
    let ghost start = results@;
    let mut i: usize = 0;
    while i < to_cancel.len()
        invariant
            0 <= i <= to_cancel@.len(),
            results@.len() == n,
            start.len() == n,
            forall|j: int| 0 <= j < to_cancel@.len() ==> #[trigger] to_cancel@[j] < n,
            forall|j: int|
                0 <= j < n ==> #[trigger] results@[j] == (if start[j] is None
                    && to_cancel@.take(i as int).contains(j as usize) {
                    Some(OperationResult::Cancelled)
                } else {
                    start[j]
                }),
        decreases to_cancel@.len() - i,
    {
        let index = to_cancel[i];
        proof {
            assert(to_cancel@.take(i + 1) == to_cancel@.take(i as int).push(index));
            let ghost done = to_cancel@.take(i as int);
            let ghost next = to_cancel@.take(i + 1);
            assert forall|x: usize| #[trigger] next.contains(x) <==> done.contains(x) || x == index by {
                if next.contains(x) {
                    let j = choose|j: int| 0 <= j < next.len() && #[trigger] next[j] == x;
                    if j < i {
                        assert(done[j] == x);
                    }
                }
                if done.contains(x) {
                    let j = choose|j: int| 0 <= j < done.len() && #[trigger] done[j] == x;
                    assert(next[j] == x);
                }
                if x == index {
                    assert(next[i as int] == x);
                }
            }
        }
        if results[index].is_none() {
            results.set(index, Some(OperationResult::Cancelled));
        }
        i = i + 1;
    }
    proof {
        assert(to_cancel@.take(to_cancel@.len() as int) == to_cancel@);
        assert(results@ =~= cancel_dependents_spec(start, deps, failed_index));
    }
}

/// Cancels every operation that has no result yet.
pub fn cancel_all_remaining_operations(results: &mut Vec<Option<OperationResult>>)
    ensures
        final(results)@ == cancel_all_spec(old(results)@),
{
    let ghost start = results@;
    let mut i: usize = 0;
    while i < results.len()
        invariant
            0 <= i <= results@.len(),
            results@.len() == start.len(),
            forall|j: int|
                0 <= j < results@.len() ==> #[trigger] results@[j] == (if j < i && start[j] is None {
                    Some(OperationResult::Cancelled)
                } else {
                    start[j]
                }),
        decreases results@.len() - i,
    {
        if results[i].is_none() {
            results.set(i, Some(OperationResult::Cancelled));
        }
        i = i + 1;
    }
    proof {
        assert(results@ =~= cancel_all_spec(start));
    }
}

/// Whether every operation has a result.
pub fn all_operations_completed(results: &Vec<Option<OperationResult>>) -> (r: bool)
    ensures
        r == all_filled(results@),
{
    let mut i: usize = 0;
    while i < results.len()
        invariant
            0 <= i <= results@.len(),
            forall|j: int| 0 <= j < i ==> (#[trigger] results@[j]) is Some,
        decreases results@.len() - i,
    {
        if results[i].is_none() {
            return false;
        }
        i = i + 1;
    }
    true
}

/// The batch result of the slots, an empty slot counting as cancelled.
pub fn collect_results(results: &Vec<Option<OperationResult>>) -> (r: BatchResult)
    ensures
        r.results@ == collected(results@),
{
    let mut out: Vec<OperationResult> = Vec::new();
    let mut i: usize = 0;
    while i < results.len()
        invariant
            0 <= i <= results@.len(),
            out@.len() == i,
            forall|j: int| 0 <= j < i ==> #[trigger] out@[j] == collected(results@)[j],
        decreases results@.len() - i,
    {
        let r = match &results[i] {
            Some(r) => r.clone(),
            None => OperationResult::Cancelled,
        };
        out.push(r);
        i = i + 1;
    }
    proof {
        assert(out@ =~= collected(results@));
    }
    BatchResult::new(out)
}

/// The result slot an outcome fills: a value is a success, a message a
/// failure.
pub open spec fn outcome_result(outcome: Result<i32, String>) -> OperationResult {
    match outcome {
        Ok(v) => OperationResult::Success(v),
        Err(m) => OperationResult::Error(m),
    }
}

/// Applies outcomes (slot, outcome) in order. An outcome fills its slot
/// when the slot exists and is empty, and is passed over otherwise. Gives
/// the slots, the slots filled (in order) and whether a failure was among
/// them.
pub open spec fn apply_outcomes(
    results: Seq<Option<OperationResult>>,
    outcomes: Seq<(usize, Result<i32, String>)>,
) -> (Seq<Option<OperationResult>>, Seq<usize>, bool)
    decreases outcomes.len(),
{
    if outcomes.len() == 0 {
        (results, Seq::empty(), false)
    } else {
        let (slots, filled, failed) = apply_outcomes(results, outcomes.drop_last());
        let (index, outcome) = outcomes.last();
        if index < slots.len() && slots[index as int] is None {
            (
                slots.update(index as int, Some(outcome_result(outcome))),
                filled.push(index),
                failed || outcome is Err,
            )
        } else {
            (slots, filled, failed)
        }
    }
}

/// `after` holds every result `before` holds, and at most a cancellation
/// where `before` holds none.
pub open spec fn only_cancels(
    before: Seq<Option<OperationResult>>,
    after: Seq<Option<OperationResult>>,
) -> bool {
    &&& after.len() == before.len()
    &&& forall|i: int|
        0 <= i < before.len() ==> (#[trigger] after[i] == before[i] || (before[i] is None
            && after[i] == Some(OperationResult::Cancelled)))
}

/// What applying outcomes does: it keeps the number of slots, changes only
/// empty slots, fills each slot it names once, and records a failure
/// exactly when it fills a slot with one.
proof fn lemma_apply_outcomes(
    results: Seq<Option<OperationResult>>,
    outcomes: Seq<(usize, Result<i32, String>)>,
)
    ensures
        ({
            let (slots, filled, failed) = apply_outcomes(results, outcomes);
            &&& slots.len() == results.len()
            &&& forall|i: int| 0 <= i < results.len() && results[i] is Some ==> #[trigger] slots[i] == results[i]
            &&& forall|j: int| 0 <= j < filled.len() ==> #[trigger] filled[j] < slots.len()
                && slots[filled[j] as int] is Some
            &&& !failed ==> forall|j: int| 0 <= j < filled.len() ==> !((#[trigger] slots[filled[j] as int]) matches Some(OperationResult::Error(_)))
            &&& filled.len() == 0 ==> slots == results
        }),
    decreases outcomes.len(),
{
    if outcomes.len() > 0 {
        lemma_apply_outcomes(results, outcomes.drop_last());
    }
}

/// Whether the poll finished the batch or must be repeated.
#[derive(Debug)]
pub enum BatchPoll {
    /// The batch is done; here are its results.
    Ready(BatchResult),
    /// The batch is not done; `wake` asks for another poll right away,
    /// because this one made progress.
    Pending {
        /// Whether the task should be woken again at once.
        wake: bool,
    },
}

/// The same outcome.
fn copy_outcome(outcome: &Result<i32, String>) -> (r: Result<i32, String>)
    ensures
        r == *outcome,
{
    match outcome {
        Ok(v) => Ok(*v),
        Err(m) => Err(m.clone()),
    }
}

/// Fills slots from outcomes, then settles the batch: with fail-fast, a
/// failure cancels the dependents of each failed operation and then every
/// operation still without a result, and the batch is done; otherwise the
/// batch is done once every slot is filled, and pending with a request to
/// poll again if anything was filled. The flag says whether the batch is
/// now complete in the regular way (every slot filled without a fail-fast
/// cancellation).
fn apply_and_settle(
    results: &mut Vec<Option<OperationResult>>,
    dependencies: &HashMap<usize, Vec<usize>>,
    fail_fast: bool,
    outcomes: &Vec<(usize, Result<i32, String>)>,
) -> (r: (bool, BatchPoll))
    requires
        dependencies_within(dependencies@, old(results)@.len()),
    ensures
        final(results)@.len() == old(results)@.len(),
        ({
            let (slots, filled, failed) = apply_outcomes(old(results)@, outcomes@);
            if fail_fast && failed {
                &&& final(results)@ == cancel_all_spec(slots)
                &&& !r.0
                &&& r.1 matches BatchPoll::Ready(b) && b.results@ == collected(final(results)@)
            } else if all_filled(slots) {
                &&& final(results)@ == slots
                &&& r.0
                &&& r.1 matches BatchPoll::Ready(b) && b.results@ == collected(slots)
            } else {
                &&& final(results)@ == slots
                &&& !r.0
                &&& r.1 matches BatchPoll::Pending { wake } && wake == (filled.len() > 0)
            }
        }),
{
    let ghost start = results@;
    let mut filled: Vec<usize> = Vec::new();
    let mut any_failed = false;
    let mut i: usize = 0;
    while i < outcomes.len()
        invariant
            0 <= i <= outcomes@.len(),
            (results@, filled@, any_failed) == apply_outcomes(start, outcomes@.take(i as int)),
        decreases outcomes@.len() - i,
    {
        proof {
            assert(outcomes@.take(i + 1).drop_last() == outcomes@.take(i as int));
            lemma_apply_outcomes(start, outcomes@.take(i as int));
        }
        let index = outcomes[i].0;
        if index < results.len() && results[index].is_none() {
            let outcome = copy_outcome(&outcomes[i].1);
            let failed_now = outcome.is_err();
            let result = match outcome {
                Ok(v) => OperationResult::Success(v),
                Err(m) => OperationResult::Error(m),
            };
            results.set(index, Some(result));
            filled.push(index);
            any_failed = any_failed || failed_now;
        }
        i = i + 1;
    }
    proof {
        assert(outcomes@.take(outcomes@.len() as int) == outcomes@);
        lemma_apply_outcomes(start, outcomes@);
    }
    let ghost slots = results@;
    let mut k: usize = 0;
    while k < filled.len()
        invariant
            0 <= k <= filled@.len(),
            (slots, filled@, any_failed) == apply_outcomes(start, outcomes@),
            slots.len() == start.len(),
            dependencies_within(dependencies@, start.len()),
            forall|j: int| 0 <= j < filled@.len() ==> #[trigger] filled@[j] < slots.len()
                && slots[filled@[j] as int] is Some,
            !any_failed ==> forall|j: int| 0 <= j < filled@.len() ==> !((#[trigger] slots[filled@[j] as int]) matches Some(OperationResult::Error(_))),
            only_cancels(slots, results@),
            !(fail_fast && any_failed) ==> results@ == slots,
        decreases filled@.len() - k,
    {
        let index = filled[k];
        let failed_here = match &results[index] {
            Some(OperationResult::Error(_)) => true,
            _ => false,
        };
        if fail_fast && failed_here {
            proof {
                if !any_failed {
                    assert(!(slots[filled@[k as int] as int] matches Some(OperationResult::Error(_))));
                    assert(only_cancels(slots, results@));
                    assert(results@[index as int] == slots[index as int]);
                }
            }
            let ghost before = results@;
            cancel_dependent_operations(results, dependencies, index);
            proof {
                assert(only_cancels(slots, results@)) by {
                    assert forall|j: int| 0 <= j < slots.len() implies (#[trigger] results@[j]
                        == slots[j] || (slots[j] is None && results@[j] == Some(
                        OperationResult::Cancelled,
                    ))) by {
                        assert(results@[j] == cancel_dependents_spec(before, dependencies@, index)[j]);
                        assert(before[j] == slots[j] || (slots[j] is None && before[j] == Some(
                            OperationResult::Cancelled,
                        )));
                    }
                }
            }
        }
        k = k + 1;
    }
    if fail_fast && any_failed {
        let ghost before = results@;
        cancel_all_remaining_operations(results);
        proof {
            assert(results@ =~= cancel_all_spec(slots)) by {
                assert forall|j: int| 0 <= j < slots.len() implies #[trigger] results@[j]
                    == cancel_all_spec(slots)[j] by {
                    assert(only_cancels(slots, before));
                    assert(before[j] == slots[j] || (slots[j] is None && before[j] == Some(
                        OperationResult::Cancelled,
                    )));
                }
            }
        }
        let batch = collect_results(results);
        return (false, BatchPoll::Ready(batch));
    }
    if all_operations_completed(results) {
        let batch = collect_results(results);
        return (true, BatchPoll::Ready(batch));
    }
    (false, BatchPoll::Pending { wake: filled.len() > 0 })
}

/// Which slot each operation identifier names; a later slot with the same
/// identifier wins.
pub open spec fn index_map_spec(operation_ids: Seq<Option<u64>>) -> Map<u64, usize>
    decreases operation_ids.len(),
{
    if operation_ids.len() == 0 {
        Map::empty()
    } else {
        let earlier = index_map_spec(operation_ids.drop_last());
        match operation_ids.last() {
            Some(id) => earlier.insert(id, (operation_ids.len() - 1) as usize),
            None => earlier,
        }
    }
}

/// Completions by identifier turned into outcomes by slot; identifiers that
/// name no slot of the batch are dropped.
pub open spec fn outcomes_by_slot(
    index_of: Map<u64, usize>,
    completions: Seq<(u64, Result<i32, String>)>,
) -> Seq<(usize, Result<i32, String>)>
    decreases completions.len(),
{
    if completions.len() == 0 {
        Seq::empty()
    } else {
        let earlier = outcomes_by_slot(index_of, completions.drop_last());
        let (id, outcome) = completions.last();
        if index_of.contains_key(id) {
            earlier.push((index_of[id], outcome))
        } else {
            earlier
        }
    }
}

/// `n` empty result slots.
fn empty_slots(n: usize) -> (r: Vec<Option<OperationResult>>)
    ensures
        r@.len() == n,
        forall|j: int| 0 <= j < n ==> (#[trigger] r@[j]) is None,
{
    let mut slots: Vec<Option<OperationResult>> = Vec::new();
    let mut k: usize = 0;
    while k < n
        invariant
            k <= n,
            slots@.len() == k,
            forall|j: int| 0 <= j < k ==> (#[trigger] slots@[j]) is None,
        decreases n - k,
    {
        slots.push(None);
        k = k + 1;
    }
    slots
}

/// A batch future that does not hold the ring: each poll is handed the
/// completions taken from the ring.
#[derive(Debug)]
pub struct StandaloneBatchFuture {
    operation_ids: Vec<Option<u64>>,
    results: Vec<Option<OperationResult>>,
    dependencies: HashMap<usize, Vec<usize>>,
    fail_fast: bool,
    completed: bool,
    id_to_index: HashMap<u64, usize>,
}

impl StandaloneBatchFuture {
    /// One slot per operation, dependencies naming slots only, and every
    /// identifier filed under a slot.
    pub closed spec fn wf(&self) -> bool {
        &&& self.results@.len() == self.operation_ids@.len()
        &&& dependencies_within(self.dependencies@, self.results@.len())
        &&& self.id_to_index@ == index_map_spec(self.operation_ids@)
        &&& forall|id: u64| #[trigger]
            self.id_to_index@.contains_key(id) ==> self.id_to_index@[id] < self.results@.len()
    }

    /// The result slots.
    pub closed spec fn results_spec(&self) -> Seq<Option<OperationResult>> {
        self.results@
    }

    /// The slot of each identifier.
    pub closed spec fn index_of_spec(&self) -> Map<u64, usize> {
        self.id_to_index@
    }

    /// Whether a failure cancels what is left.
    pub closed spec fn fail_fast_spec(&self) -> bool {
        self.fail_fast
    }

    /// Whether the batch completed with every slot filled.
    pub closed spec fn completed_spec(&self) -> bool {
        self.completed
    }

    /// A batch of the operations submitted under `operation_ids` (`None`
    /// for an operation that was not submitted), with their dependencies by
    /// slot.
    pub fn new(
        operation_ids: Vec<Option<u64>>,
        dependencies: HashMap<usize, Vec<usize>>,
        fail_fast: bool,
    ) -> (r: Self)
        requires
            dependencies_within(dependencies@, operation_ids@.len()),
        ensures
            r.wf(),
            r.results_spec().len() == operation_ids@.len(),
            forall|j: int| 0 <= j < operation_ids@.len() ==> (#[trigger] r.results_spec()[j]) is None,
            r.index_of_spec() == index_map_spec(operation_ids@),
            r.fail_fast_spec() == fail_fast,
            !r.completed_spec(),
    {
        let n = operation_ids.len();
        let results = empty_slots(n);
        let mut id_to_index: HashMap<u64, usize> = HashMap::new();
        let mut i: usize = 0;
        while i < n
            invariant
                0 <= i <= n,
                n == operation_ids@.len(),
                id_to_index@ == index_map_spec(operation_ids@.take(i as int)),
                forall|id: u64| #[trigger] id_to_index@.contains_key(id) ==> id_to_index@[id] < i,
            decreases n - i,
        {
            proof {
                assert(operation_ids@.take(i + 1).drop_last() == operation_ids@.take(i as int));
            }
            if let Some(id) = operation_ids[i] {
                id_to_index.insert(id, i);
            }
            i = i + 1;
        }
        proof {
            assert(operation_ids@.take(n as int) == operation_ids@);
        }
        StandaloneBatchFuture {
            operation_ids,
            results,
            dependencies,
            fail_fast,
            completed: false,
            id_to_index,
        }
    }

    /// Whether the batch completed with every slot filled; a completed
    /// batch needs no completions.
    pub fn is_completed(&self) -> (r: bool)
        ensures
            r == self.completed_spec(),
    {
        self.completed
    }

    /// Polls the batch with the completions just taken from the ring, by
    /// identifier. A completed batch hands out its results again and
    /// ignores them. Otherwise each completion fills the slot of its
    /// identifier if that slot is empty (others are passed over), and the
    /// batch settles: with fail-fast a failure cancels everything left and
    /// the batch is done; else it is done when every slot is filled, and
    /// pending otherwise, asking to be polled again if it made progress.
    pub fn poll_with_ring(&mut self, completions: Vec<(u64, Result<i32, String>)>) -> (r: BatchPoll)
        requires
            old(self).wf(),
        ensures
            final(self).wf(),
            final(self).index_of_spec() == old(self).index_of_spec(),
            final(self).fail_fast_spec() == old(self).fail_fast_spec(),
            old(self).completed_spec() ==> {
                &&& final(self).results_spec() == old(self).results_spec()
                &&& final(self).completed_spec()
                &&& r matches BatchPoll::Ready(b) && b.results@ == collected(old(self).results_spec())
            },
            !old(self).completed_spec() ==> ({
                let (slots, filled, failed) = apply_outcomes(
                    old(self).results_spec(),
                    outcomes_by_slot(old(self).index_of_spec(), completions@),
                );
                if old(self).fail_fast_spec() && failed {
                    &&& final(self).results_spec() == cancel_all_spec(slots)
                    &&& !final(self).completed_spec()
                    &&& r matches BatchPoll::Ready(b) && b.results@ == collected(cancel_all_spec(slots))
                } else if all_filled(slots) {
                    &&& final(self).results_spec() == slots
                    &&& final(self).completed_spec()
                    &&& r matches BatchPoll::Ready(b) && b.results@ == collected(slots)
                } else {
                    &&& final(self).results_spec() == slots
                    &&& !final(self).completed_spec()
                    &&& r matches BatchPoll::Pending { wake } && wake == (filled.len() > 0)
                }
            }),
    {
        if self.completed {
            return BatchPoll::Ready(collect_results(&self.results));
        }
        let mut outcomes: Vec<(usize, Result<i32, String>)> = Vec::new();
        let mut i: usize = 0;
        while i < completions.len()
            invariant
                0 <= i <= completions@.len(),
                outcomes@ == outcomes_by_slot(self.id_to_index@, completions@.take(i as int)),
            decreases completions@.len() - i,
        {
            proof {
                assert(completions@.take(i + 1).drop_last() == completions@.take(i as int));
            }
            let id = completions[i].0;
            match self.id_to_index.get(&id) {
                Some(index) => {
                    let outcome = copy_outcome(&completions[i].1);
                    outcomes.push((*index, outcome));
                },
                None => {},
            }
            i = i + 1;
        }
        proof {
            assert(completions@.take(completions@.len() as int) == completions@);
        }
        let (done, poll) = apply_and_settle(
            &mut self.results,
            &self.dependencies,
            self.fail_fast,
            &outcomes,
        );
        if done {
            self.completed = true;
        }
        poll
    }
}

/// A batch future that polls the ring for each of its operations: the
/// caller asks the ring about the operations `pending_queries` names and
/// hands the finished ones to `poll_with_outcomes`.
#[derive(Debug)]
pub struct BatchFuture {
    operation_ids: Vec<Option<u64>>,
    results: Vec<Option<OperationResult>>,
    dependencies: HashMap<usize, Vec<usize>>,
    fail_fast: bool,
    completed: bool,
}

impl BatchFuture {
    /// One slot per operation and dependencies naming slots only.
    pub closed spec fn wf(&self) -> bool {
        &&& self.results@.len() == self.operation_ids@.len()
        &&& dependencies_within(self.dependencies@, self.results@.len())
    }

    /// The identifiers the operations were submitted under.
    pub closed spec fn operation_ids_spec(&self) -> Seq<Option<u64>> {
        self.operation_ids@
    }

    /// The result slots.
    pub closed spec fn results_spec(&self) -> Seq<Option<OperationResult>> {
        self.results@
    }

    /// Whether a failure cancels what is left.
    pub closed spec fn fail_fast_spec(&self) -> bool {
        self.fail_fast
    }

    /// Whether the batch completed with every slot filled.
    pub closed spec fn completed_spec(&self) -> bool {
        self.completed
    }

    /// A batch of the operations submitted under `operation_ids` (`None`
    /// for an operation that was not submitted), with their dependencies by
    /// slot.
    pub fn new(
        operation_ids: Vec<Option<u64>>,
        dependencies: HashMap<usize, Vec<usize>>,
        fail_fast: bool,
    ) -> (r: Self)
        requires
            dependencies_within(dependencies@, operation_ids@.len()),
        ensures
            r.wf(),
            r.operation_ids_spec() == operation_ids@,
            r.results_spec().len() == operation_ids@.len(),
            forall|j: int| 0 <= j < operation_ids@.len() ==> (#[trigger] r.results_spec()[j]) is None,
            r.fail_fast_spec() == fail_fast,
            !r.completed_spec(),
    {
        let results = empty_slots(operation_ids.len());
        BatchFuture { operation_ids, results, dependencies, fail_fast, completed: false }
    }

    /// Whether the batch completed with every slot filled.
    pub fn is_completed(&self) -> (r: bool)
        ensures
            r == self.completed_spec(),
    {
        self.completed
    }

    /// The operations to ask the ring about, as (slot, identifier) in slot
    /// order: those submitted and still without a result.
    pub fn pending_queries(&self) -> (r: Vec<(usize, u64)>)
        requires
            self.wf(),
        ensures
            forall|j: int| 0 <= j < r@.len() ==> {
                let (slot, id) = #[trigger] r@[j];
                &&& slot < self.results_spec().len()
                &&& self.operation_ids_spec()[slot as int] == Some(id)
                &&& self.results_spec()[slot as int] is None
            },
            forall|slot: int|
                0 <= slot < self.results_spec().len() && self.results_spec()[slot] is None
                    && (#[trigger] self.operation_ids_spec()[slot]) is Some ==> exists|j: int|
                    0 <= j < r@.len() && #[trigger] r@[j] == (
                        slot as usize,
                        self.operation_ids_spec()[slot]->0,
                    ),
            forall|a: int, b: int| 0 <= a < b < r@.len() ==> (#[trigger] r@[a]).0 < (#[trigger] r@[b]).0,
    {
        let mut out: Vec<(usize, u64)> = Vec::new();
        let mut i: usize = 0;
        while i < self.operation_ids.len()
            invariant
                self.wf(),
                0 <= i <= self.operation_ids@.len(),
                forall|j: int| 0 <= j < out@.len() ==> {
                    let (slot, id) = #[trigger] out@[j];
                    &&& slot < i
                    &&& self.operation_ids@[slot as int] == Some(id)
                    &&& self.results@[slot as int] is None
                },
                forall|slot: int|
                    0 <= slot < i && self.results@[slot] is None
                        && (#[trigger] self.operation_ids@[slot]) is Some ==> exists|j: int|
                        0 <= j < out@.len() && #[trigger] out@[j] == (
                            slot as usize,
                            self.operation_ids@[slot]->0,
                        ),
                forall|a: int, b: int| 0 <= a < b < out@.len() ==> (#[trigger] out@[a]).0 < (#[trigger] out@[b]).0,
            decreases self.operation_ids@.len() - i,
        {
            let ghost out_before = out@;
            if let Some(id) = self.operation_ids[i] {
                if self.results[i].is_none() {
                    out.push((i, id));
                    proof {
                        assert(out@[out@.len() - 1] == (i, id));
                    }
                }
            }
            proof {
                assert forall|slot: int|
                    0 <= slot < i + 1 && self.results@[slot] is None
                        && (#[trigger] self.operation_ids@[slot]) is Some implies exists|j: int|
                        0 <= j < out@.len() && #[trigger] out@[j] == (
                            slot as usize,
                            self.operation_ids@[slot]->0,
                        ) by {
                    if slot == i {
                        assert(out@[out@.len() - 1] == (slot as usize, self.operation_ids@[slot]->0));
                    } else {
                        let j = choose|j: int|
                            0 <= j < out_before.len() && #[trigger] out_before[j] == (
                                slot as usize,
                                self.operation_ids@[slot]->0,
                            );
                        assert(out@[j] == out_before[j]);
                    }
                }
            }
            i = i + 1;
        }
        out
    }

    /// Polls the batch with the outcomes the ring reported, as (slot,
    /// outcome) for the operations that finished. A completed batch hands
    /// out its results again and ignores them. Otherwise each outcome fills
    /// its slot if that slot is empty, and the batch settles as
    /// `StandaloneBatchFuture::poll_with_ring` describes.
    pub fn poll_with_outcomes(&mut self, outcomes: Vec<(usize, Result<i32, String>)>) -> (r: BatchPoll)
        requires
            old(self).wf(),
        ensures
            final(self).wf(),
            final(self).operation_ids_spec() == old(self).operation_ids_spec(),
            final(self).fail_fast_spec() == old(self).fail_fast_spec(),
            old(self).completed_spec() ==> {
                &&& final(self).results_spec() == old(self).results_spec()
                &&& final(self).completed_spec()
                &&& r matches BatchPoll::Ready(b) && b.results@ == collected(old(self).results_spec())
            },
            !old(self).completed_spec() ==> ({
                let (slots, filled, failed) = apply_outcomes(old(self).results_spec(), outcomes@);
                if old(self).fail_fast_spec() && failed {
                    &&& final(self).results_spec() == cancel_all_spec(slots)
                    &&& !final(self).completed_spec()
                    &&& r matches BatchPoll::Ready(b) && b.results@ == collected(cancel_all_spec(slots))
                } else if all_filled(slots) {
                    &&& final(self).results_spec() == slots
                    &&& final(self).completed_spec()
                    &&& r matches BatchPoll::Ready(b) && b.results@ == collected(slots)
                } else {
                    &&& final(self).results_spec() == slots
                    &&& !final(self).completed_spec()
                    &&& r matches BatchPoll::Pending { wake } && wake == (filled.len() > 0)
                }
            }),
    {
        if self.completed {
            return BatchPoll::Ready(collect_results(&self.results));
        }
        let (done, poll) = apply_and_settle(
            &mut self.results,
            &self.dependencies,
            self.fail_fast,
            &outcomes,
        );
        if done {
            self.completed = true;
        }
        poll
    }
}

} // verus!
