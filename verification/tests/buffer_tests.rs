//! Tests of the double buffer: views, writes, swaps and capacity.

use neopixel::read_write_buffer::ReadWriteBuffer;

#[test]
fn read_write_buffer_can_borrow() {
    let b = ReadWriteBuffer::new(8);
    assert_eq!(b.borrow()[0], 0);
}

#[test]
fn can_borrow_mut() {
    let mut b = ReadWriteBuffer::new(8);
    let borrow = b.borrow_mut();
    borrow[0] = 42;
    assert_eq!(borrow[0], 42);
}

#[test]
fn can_swap() {
    let mut b = ReadWriteBuffer::new(8);
    let borrow = b.borrow_mut();
    borrow[0] = 42;
    b.swap();
    let borrow = b.borrow();
    assert_eq!(borrow[0], 42);
}

#[test]
#[should_panic]
fn write_to_bad_memory() {
    let mut b = ReadWriteBuffer::new(8);
    b.borrow_mut()[8] = 42;
}

#[test]
fn correct_buffer_size() {
    let b = ReadWriteBuffer::new(8);
    assert_eq!(b.length(), 8);
}

#[test]
fn correct_slice_len() {
    let b = ReadWriteBuffer::new(8);
    assert_eq!(b.borrow().len(), 8);
}

#[test]
fn pattern_round_trip() {
    let mut b = ReadWriteBuffer::new(8);
    let pattern: Vec<u8> = vec![1, 2, 3, 4, 5, 6, 7, 8];
    let w = b.borrow_mut();
    for (i, byte) in pattern.iter().enumerate() {
        w[i] = *byte;
    }
    b.swap();
    assert_eq!(b.borrow().as_slice(), pattern.as_slice());
    // the other region is untouched by the swap
    assert_eq!(b.borrow_mut().as_slice(), [0u8; 8]);
}

#[test]
fn swap_exchanges_both_ways() {
    let mut b = ReadWriteBuffer::new(2);
    b.borrow_mut()[0] = 10;
    b.swap();
    b.borrow_mut()[0] = 20;
    b.swap();
    assert_eq!(b.borrow()[0], 20);
    assert_eq!(b.borrow_mut()[0], 10);
}
