use reg1d::training::epoch_chunks;

#[test]
fn even_split_has_no_partial_chunk() {
    let chunks = epoch_chunks(20000, 100);
    assert_eq!(chunks.len(), 100);
    assert!(chunks.iter().all(|&c| c == 200));
    assert_eq!(chunks.iter().sum::<u64>(), 20000);
}

#[test]
fn remainder_becomes_a_final_partial_chunk() {
    assert_eq!(epoch_chunks(7, 3), vec![2, 2, 2, 1]);
    assert_eq!(epoch_chunks(3, 2), vec![1, 1, 1]);
}

#[test]
fn zero_epochs_still_run_every_stage() {
    assert_eq!(epoch_chunks(0, 5), vec![0, 0, 0, 0, 0]);
}

#[test]
fn fewer_epochs_than_stages() {
    let chunks = epoch_chunks(2, 4);
    assert_eq!(chunks, vec![0, 0, 0, 0, 2]);
    assert_eq!(chunks.iter().sum::<u64>(), 2);
}
