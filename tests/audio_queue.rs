use presto::audio::reorder_queue_in_place;

#[test]
fn audio_reorder_queue_unshuffled_sorts_and_filters() {
    let mut q = vec![5, 2, 999, 2, 0];
    reorder_queue_in_place(&mut q, 6, false, &[]);
    assert_eq!(q, vec![0, 2, 2, 5]);
}

#[test]
fn audio_reorder_queue_shuffled_follows_order_positions() {
    // order position: 3->0, 1->1, 0->2, 2->3
    let order = vec![3, 1, 0, 2];
    let mut q = vec![0, 3, 2];
    reorder_queue_in_place(&mut q, 4, true, &order);
    assert_eq!(q, vec![3, 0, 2]);
}

#[test]
fn tests_reorder_queue_unshuffled_sorts_and_filters() {
    let mut q = vec![5, 2, 999, 2, 0];
    reorder_queue_in_place(&mut q, 6, false, &[]);
    assert_eq!(q, vec![0, 2, 2, 5]);
}

#[test]
fn tests_reorder_queue_shuffled_follows_order_positions() {
    let order = vec![3, 1, 0, 2];
    let mut q = vec![0, 3, 2];
    reorder_queue_in_place(&mut q, 4, true, &order);
    assert_eq!(q, vec![3, 0, 2]);
}

#[test]
fn reducing_twice_changes_nothing() {
    let order = vec![4, 0, 3, 1, 2];
    for shuffle in [false, true] {
        let mut q = vec![9, 4, 1, 1, 7, 0, 3];
        reorder_queue_in_place(&mut q, 5, shuffle, &order);
        let once = q.clone();
        reorder_queue_in_place(&mut q, 5, shuffle, &order);
        assert_eq!(q, once);
    }
}

#[test]
fn out_of_range_indices_never_survive() {
    let mut q = vec![3, 10, 3, 11, 0];
    reorder_queue_in_place(&mut q, 4, true, &[10, 3]);
    assert!(q.iter().all(|&i| i < 4));
    // 3 ranks first; 0 is absent from the order and keeps its place among the absent
    assert_eq!(q, vec![3, 3, 0]);
}

#[test]
fn empty_queue_stays_empty() {
    let mut q: Vec<usize> = vec![];
    reorder_queue_in_place(&mut q, 0, true, &[]);
    assert!(q.is_empty());
}

#[test]
fn absent_from_order_sort_last_in_candidate_order() {
    let mut q = vec![2, 0, 1];
    reorder_queue_in_place(&mut q, 3, true, &[1]);
    assert_eq!(q, vec![1, 2, 0]);
}

#[test]
fn duplicate_in_order_uses_last_position() {
    let mut q = vec![0, 1];
    reorder_queue_in_place(&mut q, 2, true, &[0, 1, 0]);
    assert_eq!(q, vec![1, 0]);
}
