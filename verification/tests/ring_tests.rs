use cancelcaster::ring::RingBuffer;

#[test]
fn fifo_returns_pushed_values_in_order() {
    let mut buf: RingBuffer<i64> = RingBuffer::new(8);
    assert!(buf.push(1));
    assert!(buf.push(2));
    assert!(buf.push(3));
    assert_eq!(buf.len(), 3);
    assert_eq!(buf.pop(), Some(1));
    assert_eq!(buf.pop(), Some(2));
    assert_eq!(buf.pop(), Some(3));
    assert_eq!(buf.pop(), None);
}

#[test]
fn overflow_keeps_oldest_and_drops_newest() {
    let mut buf: RingBuffer<i64> = RingBuffer::new(3);
    assert!(buf.push(10));
    assert!(buf.push(20));
    assert!(buf.push(30));
    assert!(!buf.push(40));
    assert!(!buf.push(50));
    assert_eq!(buf.len(), 3);
    assert_eq!(buf.pop(), Some(10));
    assert_eq!(buf.pop(), Some(20));
    assert_eq!(buf.pop(), Some(30));
    assert_eq!(buf.pop(), None);
}

#[test]
fn length_never_exceeds_capacity() {
    let mut buf: RingBuffer<u8> = RingBuffer::new(4);
    for i in 0..100u8 {
        buf.push(i);
        assert!(buf.len() <= 4);
    }
    assert_eq!(buf.len(), 4);
}

#[test]
fn pop_on_empty_yields_no_value() {
    let mut buf: RingBuffer<f32> = RingBuffer::new(4);
    assert!(buf.is_empty());
    assert_eq!(buf.pop(), None);
}

#[test]
fn consumer_substitutes_exact_silence_on_underflow() {
    let mut buf: RingBuffer<f32> = RingBuffer::new(4);
    let v = buf.pop_or(0.0);
    assert_eq!(v, 0.0_f32);
    buf.push(0.5);
    assert_eq!(buf.pop_or(0.0), 0.5_f32);
    assert_eq!(buf.pop_or(0.0), 0.0_f32);
}

#[test]
fn snapshot_is_nondestructive() {
    let mut buf: RingBuffer<i64> = RingBuffer::new(8);
    buf.push(4);
    buf.push(5);
    let snap = buf.snapshot();
    assert_eq!(snap, vec![4, 5]);
    assert_eq!(buf.len(), 2);
    assert_eq!(buf.pop(), Some(4));
    assert_eq!(buf.pop(), Some(5));
}

#[test]
fn zero_capacity_drops_everything() {
    let mut buf: RingBuffer<i64> = RingBuffer::new(0);
    assert!(!buf.push(1));
    assert_eq!(buf.len(), 0);
    assert_eq!(buf.pop(), None);
}

#[test]
fn capacity_is_recorded() {
    let buf: RingBuffer<f32> = RingBuffer::new(48000);
    assert_eq!(buf.capacity(), 48000);
    assert!(buf.is_empty());
}
