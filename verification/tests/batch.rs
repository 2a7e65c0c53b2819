use std::collections::HashMap;

use safer_ring::future::batch::{
    all_operations_completed, cancel_all_remaining_operations, cancel_dependent_operations,
    collect_results, BatchFuture, BatchPoll, OperationResult, StandaloneBatchFuture,
};

fn deps(pairs: &[(usize, Vec<usize>)]) -> HashMap<usize, Vec<usize>> {
    pairs.iter().cloned().collect()
}

fn results_of(poll: BatchPoll) -> Vec<OperationResult> {
    match poll {
        BatchPoll::Ready(batch) => batch.results,
        BatchPoll::Pending { .. } => panic!("batch still pending"),
    }
}

#[test]
fn dependents_of_a_failure_are_cancelled_transitively() {
    // 1 waits for 0, 2 waits for 1, 3 is independent, 4 waits for 3.
    let dependencies = deps(&[(1, vec![0]), (2, vec![1]), (4, vec![3])]);
    let mut results = vec![Some(OperationResult::Error("boom".to_string())), None, None, None, None];
    cancel_dependent_operations(&mut results, &dependencies, 0);
    assert_eq!(results[0], Some(OperationResult::Error("boom".to_string())));
    assert_eq!(results[1], Some(OperationResult::Cancelled));
    assert_eq!(results[2], Some(OperationResult::Cancelled));
    assert_eq!(results[3], None);
    assert_eq!(results[4], None);
}

#[test]
fn cancelling_dependents_keeps_existing_results_and_survives_cycles() {
    // 0 and 1 wait for each other; 2 waits for 1 and already succeeded.
    let dependencies = deps(&[(0, vec![1]), (1, vec![0]), (2, vec![1, 3])]);
    let mut results = vec![
        Some(OperationResult::Error("failed".to_string())),
        None,
        Some(OperationResult::Success(8)),
        None,
    ];
    cancel_dependent_operations(&mut results, &dependencies, 0);
    assert_eq!(results[0], Some(OperationResult::Error("failed".to_string())));
    assert_eq!(results[1], Some(OperationResult::Cancelled));
    assert_eq!(results[2], Some(OperationResult::Success(8)));
    assert_eq!(results[3], None);
}

#[test]
fn cancelling_everything_left_settles_the_batch() {
    let mut results = vec![Some(OperationResult::Success(1)), None, None];
    assert!(!all_operations_completed(&results));
    cancel_all_remaining_operations(&mut results);
    assert!(all_operations_completed(&results));
    assert_eq!(results[0], Some(OperationResult::Success(1)));
    assert_eq!(results[2], Some(OperationResult::Cancelled));
    let batch = collect_results(&vec![None, Some(OperationResult::Success(3))]);
    assert_eq!(batch.results, vec![OperationResult::Cancelled, OperationResult::Success(3)]);
}

#[test]
fn standalone_batch_completes_when_every_operation_does() {
    let mut batch = StandaloneBatchFuture::new(vec![Some(10), Some(11)], HashMap::new(), false);
    assert!(!batch.is_completed());

    // An unknown identifier is passed over; progress asks for another poll.
    match batch.poll_with_ring(vec![(99, Ok(1)), (10, Ok(512))]) {
        BatchPoll::Pending { wake } => assert!(wake),
        BatchPoll::Ready(_) => panic!("batch finished too early"),
    }
    // Nothing new: pending without a wake-up.
    match batch.poll_with_ring(vec![]) {
        BatchPoll::Pending { wake } => assert!(!wake),
        BatchPoll::Ready(_) => panic!("batch finished too early"),
    }
    let results = results_of(batch.poll_with_ring(vec![(10, Ok(7)), (11, Err("refused".to_string()))]));
    assert_eq!(
        results,
        vec![OperationResult::Success(512), OperationResult::Error("refused".to_string())]
    );
    assert!(batch.is_completed());
    // A completed batch hands out the same results and ignores completions.
    let again = results_of(batch.poll_with_ring(vec![(11, Ok(1))]));
    assert_eq!(again, results);
}

#[test]
fn fail_fast_batch_cancels_the_rest_on_a_failure() {
    let dependencies = deps(&[(1, vec![0])]);
    let mut batch = StandaloneBatchFuture::new(vec![Some(1), Some(2), None], dependencies, true);
    let results = results_of(batch.poll_with_ring(vec![(1, Err("io error".to_string()))]));
    assert_eq!(
        results,
        vec![
            OperationResult::Error("io error".to_string()),
            OperationResult::Cancelled,
            OperationResult::Cancelled,
        ]
    );
    // The failure settled every slot but did not mark the batch complete;
    // the next poll does, with the same results.
    assert!(!batch.is_completed());
    let again = results_of(batch.poll_with_ring(vec![]));
    assert_eq!(again, results);
    assert!(batch.is_completed());
}

#[test]
fn without_fail_fast_a_failure_does_not_cancel() {
    let mut batch = StandaloneBatchFuture::new(vec![Some(1), Some(2)], deps(&[(1, vec![0])]), false);
    match batch.poll_with_ring(vec![(1, Err("bad".to_string()))]) {
        BatchPoll::Pending { wake } => assert!(wake),
        BatchPoll::Ready(_) => panic!("a failure must not end the batch"),
    }
    let results = results_of(batch.poll_with_ring(vec![(2, Ok(4))]));
    assert_eq!(results[0], OperationResult::Error("bad".to_string()));
    assert_eq!(results[1], OperationResult::Success(4));
}

#[test]
fn ring_polled_batch_names_what_to_ask_for() {
    let mut batch = BatchFuture::new(vec![Some(5), None, Some(6)], HashMap::new(), false);
    assert_eq!(batch.pending_queries(), vec![(0, 5), (2, 6)]);
    match batch.poll_with_outcomes(vec![(2, Ok(9))]) {
        BatchPoll::Pending { wake } => assert!(wake),
        BatchPoll::Ready(_) => panic!("batch finished too early"),
    }
    assert_eq!(batch.pending_queries(), vec![(0, 5)]);
    match batch.poll_with_outcomes(vec![(0, Ok(1))]) {
        BatchPoll::Pending { wake } => assert!(wake),
        BatchPoll::Ready(_) => panic!("slot 1 was never submitted"),
    }
    assert!(!batch.is_completed());
}

#[test]
fn ring_polled_batch_with_fail_fast() {
    let mut batch = BatchFuture::new(vec![Some(5), Some(6)], HashMap::new(), true);
    let results = results_of(batch.poll_with_outcomes(vec![(1, Err("gone".to_string()))]));
    assert_eq!(
        results,
        vec![OperationResult::Cancelled, OperationResult::Error("gone".to_string())]
    );
    assert!(OperationResult::Success(1).is_success());
    assert!(!OperationResult::Cancelled.is_success());
}
