use meshlet_scene::PersistentGpuBuffer;

#[test]
fn queue_ranges_contiguous_and_ordered() {
    let mut b = PersistentGpuBuffer::new();
    let r1 = b.queue_write(vec![1, 2, 3]);
    let r2 = b.queue_write(vec![4, 5]);
    let r3 = b.queue_write(vec![6]);
    assert_eq!((r1.start, r1.end), (0, 3));
    assert_eq!((r2.start, r2.end), (3, 5));
    assert_eq!((r3.start, r3.end), (5, 6));
    // first-queued-first-placed: contiguous, non-overlapping, increasing
    assert_eq!(r1.end, r2.start);
    assert_eq!(r2.end, r3.start);
    assert!(r1.start <= r1.end && r1.end <= r2.start);
    assert_eq!(b.len(), 6);
    assert_eq!(b.flushed_len(), 0);
}

#[test]
fn round_trip_after_flush() {
    let mut b = PersistentGpuBuffer::new();
    let payload = vec![10, 20, 30, 40, 50];
    let r = b.queue_write(payload.clone());
    b.perform_writes();
    assert_eq!(b.flushed_len(), 5);
    assert_eq!(b.read_bytes(r.start, r.end), payload);
}

#[test]
fn growth_preserves_committed_bytes() {
    let mut b = PersistentGpuBuffer::new();
    let first = vec![9, 8, 7];
    let r1 = b.queue_write(first.clone());
    b.perform_writes();
    let gen_before = b.generation();
    // force a reallocation: more new bytes than the current capacity
    let big: Vec<u8> = (0..200).map(|i| i as u8).collect();
    let r2 = b.queue_write(big.clone());
    b.perform_writes();
    assert!(b.generation() > gen_before, "growth must change buffer identity");
    // copy-preserving: the old data is byte-identical at the same range
    assert_eq!(b.read_bytes(r1.start, r1.end), first);
    assert_eq!(b.read_bytes(r2.start, r2.end), big);
}

#[test]
fn growth_is_geometric() {
    let mut b = PersistentGpuBuffer::new();
    b.queue_write(vec![1]);
    b.perform_writes();
    assert_eq!(b.capacity(), 1);
    b.queue_write(vec![2]);
    b.perform_writes();
    assert_eq!(b.capacity(), 2);
    b.queue_write(vec![3]);
    b.perform_writes();
    // needs 3, doubling gives 4
    assert_eq!(b.capacity(), 4);
    assert_eq!(b.read_bytes(0, 3), vec![1, 2, 3]);
}

#[test]
fn no_growth_keeps_generation() {
    let mut b = PersistentGpuBuffer::new();
    b.queue_write(vec![0; 64]);
    b.perform_writes();
    // growing past 64 doubles the allocation to 128, leaving slack
    b.queue_write(vec![1; 10]);
    b.perform_writes();
    assert_eq!(b.capacity(), 128);
    let gen = b.generation();
    // 20 more bytes fit the slack: no reallocation, same identity
    b.queue_write(vec![2; 20]);
    b.perform_writes();
    assert_eq!(b.generation(), gen);
    assert_eq!(b.capacity(), 128);
}

#[test]
fn zero_length_queue_write() {
    let mut b = PersistentGpuBuffer::new();
    let r1 = b.queue_write(vec![1, 2]);
    let empty = b.queue_write(Vec::new());
    let r2 = b.queue_write(vec![3]);
    assert_eq!((empty.start, empty.end), (2, 2));
    assert_eq!((r2.start, r2.end), (2, 3));
    b.perform_writes();
    // the zero-length range corrupted nothing around it
    assert_eq!(b.read_bytes(r1.start, r1.end), vec![1, 2]);
    assert_eq!(b.read_bytes(r2.start, r2.end), vec![3]);
    assert_eq!(b.read_bytes(empty.start, empty.end), Vec::<u8>::new());
}

#[test]
fn flush_of_empty_queue_is_noop() {
    let mut b = PersistentGpuBuffer::new();
    b.perform_writes();
    assert_eq!(b.len(), 0);
    assert_eq!(b.flushed_len(), 0);
    assert_eq!(b.generation(), 0);
}
