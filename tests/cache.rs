use calculator_core::cache::FixedBuffer;

#[test]
fn writes_append_in_order() {
    let mut b = FixedBuffer::new(8);
    assert_eq!(b.write(&[1, 2, 3]), 3);
    assert_eq!(b.write(&[4]), 1);
    b.flush();
    assert_eq!(b.len(), 4);
    assert_eq!(b.into_written(), vec![1, 2, 3, 4]);
}

#[test]
fn write_stops_at_capacity() {
    let mut b = FixedBuffer::new(4);
    assert_eq!(b.write(&[9, 8, 7]), 3);
    assert_eq!(b.write(&[6, 5, 4]), 1);
    assert_eq!(b.write(&[3]), 0);
    assert_eq!(b.into_written(), vec![9, 8, 7, 6]);
}

#[test]
fn empty_buffer() {
    let mut b = FixedBuffer::new(0);
    assert_eq!(b.write(&[1]), 0);
    assert_eq!(b.write(&[]), 0);
    assert!(b.into_written().is_empty());
}
