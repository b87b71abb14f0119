use serial_codec::SerialBuffer;

#[test]
fn ring_buffer_starts_empty() {
    let mut buf = SerialBuffer::<8>::new();
    assert_eq!(buf.count(), 0);
    assert_eq!(buf.free_space(), 8);
    assert_eq!(buf.peek(), None);
    assert_eq!(buf.pop(), None);
    assert_eq!(buf.count(), 0);
}

#[test]
fn ring_buffer_push_pop_in_order() {
    let mut buf = SerialBuffer::<8>::new();
    buf.push(10);
    buf.push(20);
    buf.push(30);
    assert_eq!(buf.count(), 3);
    assert_eq!(buf.free_space(), 5);
    assert_eq!(buf.pop(), Some(10));
    assert_eq!(buf.pop(), Some(20));
    assert_eq!(buf.pop(), Some(30));
    assert_eq!(buf.pop(), None);
}

#[test]
fn ring_buffer_peek_does_not_consume() {
    let mut buf = SerialBuffer::<4>::new();
    buf.push(0x42);
    assert_eq!(buf.peek(), Some(0x42));
    assert_eq!(buf.peek(), Some(0x42));
    assert_eq!(buf.count(), 1);
    assert_eq!(buf.pop(), Some(0x42));
    assert_eq!(buf.count(), 0);
}

#[test]
fn ring_buffer_wraparound_keeps_insertion_order() {
    let mut buf = SerialBuffer::<4>::new();
    buf.push(1);
    buf.push(2);
    buf.push(3);
    buf.push(4);
    assert_eq!(buf.count(), 4);
    assert_eq!(buf.free_space(), 0);
    assert_eq!(buf.pop(), Some(1));
    assert_eq!(buf.pop(), Some(2));
    // These two land in the wrapped-around slots at the start of storage.
    buf.push(5);
    buf.push(6);
    assert_eq!(buf.count(), 4);
    assert_eq!(buf.free_space(), 0);
    assert_eq!(buf.pop(), Some(3));
    assert_eq!(buf.pop(), Some(4));
    assert_eq!(buf.pop(), Some(5));
    assert_eq!(buf.pop(), Some(6));
    assert_eq!(buf.pop(), None);
}

#[test]
fn ring_buffer_free_space_plus_count_is_capacity() {
    let mut buf = SerialBuffer::<5>::new();
    assert_eq!(buf.free_space() + buf.count(), 5);
    buf.push(7);
    assert_eq!(buf.free_space() + buf.count(), 5);
    buf.push(8);
    buf.pop();
    assert_eq!(buf.free_space() + buf.count(), 5);
}
