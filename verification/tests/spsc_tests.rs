use alice_rtos::SpscRing;

#[test]
fn test_push_pop() {
    let mut ring = SpscRing::<8>::new();
    assert!(ring.is_empty());

    ring.push(42);
    assert_eq!(ring.len(), 1);
    assert!(!ring.is_empty());

    let val = ring.pop();
    assert_eq!(val, Some(42));
    assert!(ring.is_empty());
}

#[test]
fn test_full_buffer() {
    let mut ring = SpscRing::<4>::new();
    assert!(ring.push(1));
    assert!(ring.push(2));
    assert!(ring.push(3));
    assert!(!ring.push(4)); // Full (capacity = N-1 = 3)
    assert!(ring.is_full());
}

#[test]
fn test_fifo_order() {
    let mut ring = SpscRing::<8>::new();
    for i in 0..5 {
        ring.push(i);
    }
    for i in 0..5 {
        assert_eq!(ring.pop(), Some(i));
    }
}

#[test]
fn test_wraparound() {
    let mut ring = SpscRing::<4>::new();
    // Fill and drain repeatedly so the indices wrap the backing array
    for round in 0..3 {
        for i in 0..3 {
            assert!(ring.push(round * 10 + i));
        }
        for i in 0..3 {
            assert_eq!(ring.pop(), Some(round * 10 + i));
        }
    }
}

#[test]
fn test_capacity() {
    let ring = SpscRing::<16>::new();
    assert_eq!(ring.capacity(), 15);
}

#[test]
fn test_clear() {
    let mut ring = SpscRing::<8>::new();
    ring.push(1);
    ring.push(2);
    ring.clear();
    assert!(ring.is_empty());
    assert_eq!(ring.pop(), None);
}

#[test]
fn test_round_trip_once() {
    let mut ring = SpscRing::<8>::new();
    assert!(ring.push(7));
    assert_eq!(ring.pop(), Some(7));
    assert_eq!(ring.pop(), None);
}

#[test]
fn test_pop_empty() {
    let mut ring = SpscRing::<4>::new();
    assert_eq!(ring.pop(), None);
    assert_eq!(ring.len(), 0);
}

#[test]
fn test_interleaved_prefix_order() {
    // Interleave pushes and pops; the popped values must come back as a
    // prefix of the pushed values, in push order.
    let mut ring = SpscRing::<4>::new();
    let pushed: Vec<u32> = vec![10, 20, 30, 40, 50];
    let mut popped: Vec<u32> = Vec::new();
    assert!(ring.push(pushed[0]));
    assert!(ring.push(pushed[1]));
    popped.push(ring.pop().unwrap());
    assert!(ring.push(pushed[2]));
    assert!(ring.push(pushed[3]));
    popped.push(ring.pop().unwrap());
    assert!(ring.push(pushed[4]));
    while let Some(v) = ring.pop() {
        popped.push(v);
    }
    assert_eq!(popped, pushed);
}
