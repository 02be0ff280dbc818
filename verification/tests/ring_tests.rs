use sona_capture::ring::RingBuffer;

#[test]
fn fifo_order_is_kept() {
    let mut r = RingBuffer::new(8);
    for v in [3, 1, 4, 1, 5] {
        assert!(r.push(v));
    }
    let mut out = vec![0i32; 5];
    let k = r.pop_into(&mut out);
    assert_eq!(k, 5);
    assert_eq!(out, vec![3, 1, 4, 1, 5]);
    assert_eq!(r.occupied_len(), 0);
}

#[test]
fn occupied_counts_pushes_minus_pops() {
    let mut r = RingBuffer::new(16);
    for v in 0..10 {
        assert!(r.push(v));
    }
    assert_eq!(r.occupied_len(), 10);
    let mut out = vec![0i32; 4];
    let k = r.pop_into(&mut out);
    assert_eq!(k, 4);
    assert_eq!(out, vec![0, 1, 2, 3]);
    assert_eq!(r.occupied_len(), 6);
    let mut rest = vec![0i32; 6];
    let k = r.pop_into(&mut rest);
    assert_eq!(k, 6);
    assert_eq!(rest, vec![4, 5, 6, 7, 8, 9]);
    assert_eq!(r.occupied_len(), 0);
}

#[test]
fn overrun_drops_newest_and_never_exceeds_capacity() {
    let mut r = RingBuffer::new(4);
    for v in 0..4 {
        assert!(r.push(v));
        assert!(r.occupied_len() <= r.capacity());
    }
    // One past capacity: dropped, reported, nothing blocks or grows.
    assert!(!r.push(99));
    assert_eq!(r.occupied_len(), 4);
    let mut out = vec![0i32; 4];
    assert_eq!(r.pop_into(&mut out), 4);
    assert_eq!(out, vec![0, 1, 2, 3]);
}

#[test]
fn pop_from_short_buffer_copies_what_is_there() {
    let mut r = RingBuffer::new(8);
    r.push(7);
    r.push(8);
    let mut out = vec![-1i32; 5];
    let k = r.pop_into(&mut out);
    assert_eq!(k, 2);
    assert_eq!(out, vec![7, 8, -1, -1, -1]);
    assert_eq!(r.occupied_len(), 0);
}

#[test]
fn wraparound_keeps_order() {
    let mut r = RingBuffer::new(4);
    for v in [1, 2, 3] {
        r.push(v);
    }
    let mut two = vec![0i32; 2];
    assert_eq!(r.pop_into(&mut two), 2);
    assert_eq!(two, vec![1, 2]);
    // These writes wrap around the end of the storage.
    for v in [4, 5, 6] {
        assert!(r.push(v));
    }
    assert_eq!(r.occupied_len(), 4);
    let mut out = vec![0i32; 4];
    assert_eq!(r.pop_into(&mut out), 4);
    assert_eq!(out, vec![3, 4, 5, 6]);
}
