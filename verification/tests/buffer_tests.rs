use sync_primitives::buffer::Buffer;

#[test]
fn checked_write_lands_in_bounds() {
    let mut buffer = Buffer::new(10);
    match buffer.write_byte_at(5, 42) {
        Ok(()) => {}
        Err(e) => panic!("in-bounds write refused: {}", e),
    }
    let slice = buffer.as_slice();
    assert_eq!(slice.len(), 6);
    assert_eq!(slice[5], 42);
}

#[test]
fn checked_write_refuses_out_of_bounds() {
    let mut buffer = Buffer::new(10);
    match buffer.write_byte_at(15, 42) {
        Ok(()) => panic!("write past the capacity was accepted"),
        Err(e) => assert_eq!(e, "Index out of bounds"),
    }
    // the refused write left nothing behind
    assert_eq!(buffer.as_slice().len(), 0);
}

#[test]
fn unchecked_write_moves_the_high_water_mark() {
    let mut buffer = Buffer::new(4);
    buffer.write_byte_at_unchecked(2, 7);
    assert_eq!(buffer.as_slice(), &[0, 0, 7]);
    // a write below the mark leaves it where it is
    buffer.write_byte_at_unchecked(0, 1);
    assert_eq!(buffer.as_slice(), &[1, 0, 7]);
}
