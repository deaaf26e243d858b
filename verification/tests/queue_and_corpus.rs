use gramophone::corpus::CorpusStore;
use gramophone::queue::Queue;
use gramophone::shared_state::{drain_telemetry, DrainBaseline, GlobalSharedState, LocalStats};
use gramophone::state::{InputState, QueueItem};

#[test]
fn queue_pop_takes_most_recent_pending() {
    let mut q = Queue::new();
    assert_eq!(q.len(), 0);
    assert_eq!(q.pop(), None);
    let a = QueueItem { tree: 1, state: InputState::Init(0) };
    let b = QueueItem { tree: 2, state: InputState::Init(0) };
    q.add(a);
    q.add(b);
    assert_eq!(q.len(), 2);
    assert_eq!(q.pop(), Some(b));
    assert_eq!(q.pop(), Some(a));
    assert_eq!(q.pop(), None);
}

#[test]
fn finished_items_rejoin_only_at_new_round() {
    let mut q = Queue::new();
    let a = QueueItem { tree: 1, state: InputState::Init(0) };
    let b = QueueItem { tree: 2, state: InputState::Random };
    q.add(a);
    q.add(b);
    let first = q.pop().unwrap();
    q.finished(first);
    // A finished item is not pending again before the round ends.
    assert_eq!(q.len(), 1);
    let second = q.pop().unwrap();
    q.finished(second);
    assert_eq!(q.len(), 0);
    assert_eq!(q.pop(), None);
    q.new_round();
    assert_eq!(q.len(), 2);
    assert_eq!(q.pop(), Some(a));
    assert_eq!(q.pop(), Some(b));
}

#[test]
fn empty_queue_pass_generates_and_signals_one_new_round() {
    // A worker pass over an empty queue with number_of_generate_inputs = 5:
    // all five generations succeed, the local generation counter carries
    // their five contributions through one drain, and new_round is signaled
    // exactly once for the pass.
    let mut stats = GlobalSharedState::new(String::from("./work/"));
    let mut local = LocalStats::new();
    let mut base = DrainBaseline::new();
    let number_of_generate_inputs = 5u64;
    assert_eq!(stats.queue.pop(), None);
    let mut new_round_signals = 0;
    for _ in 0..number_of_generate_inputs {
        // Each successful generation executes once and reveals new coverage.
        local.execution_count += 1;
        local.bits_found_by_gen += 1;
    }
    stats.queue.new_round();
    new_round_signals += 1;
    drain_telemetry(&mut stats, &mut local, &mut base);
    assert_eq!(new_round_signals, 1);
    assert_eq!(stats.bits_found_by_gen, 5);
    assert_eq!(stats.execution_count, 5);
    assert_eq!(local.bits_found_by_gen, 0);
}

#[test]
fn corpus_store_maps_identity_to_content() {
    let mut store = CorpusStore::new();
    assert_eq!(store.trees(), 0);
    assert!(!store.contains_tree(7));
    store.add_tree(7, vec![1, 2, 3]);
    assert_eq!(store.trees(), 1);
    assert!(store.contains_tree(7));
    store.add_tree(9, vec![4]);
    assert_eq!(store.trees(), 2);
    // Inserting an identity again leaves the pool unchanged.
    store.add_tree(7, vec![9, 9]);
    assert_eq!(store.trees(), 2);
    assert!(store.contains_tree(9));
    assert!(!store.contains_tree(8));
}
