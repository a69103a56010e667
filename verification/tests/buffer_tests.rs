use microdsp_demo::buffer::{advance_with_wrap, CircularAudioBuffer};

#[test]
fn new_buffer_is_zero_filled() {
    let b = CircularAudioBuffer::new(5);
    assert_eq!(b.capacity(), 5);
    for i in 0..5 {
        assert_eq!(b.read_at(i), 0);
    }
}

#[test]
fn write_then_read_round_trips() {
    let mut b = CircularAudioBuffer::new(3);
    b.write_at(0, 11);
    b.write_at(1, -22);
    b.write_at(2, 33);
    assert_eq!(b.read_at(0), 11);
    assert_eq!(b.read_at(1), -22);
    assert_eq!(b.read_at(2), 33);
    b.write_at(1, 44);
    assert_eq!(b.read_at(0), 11);
    assert_eq!(b.read_at(1), 44);
}

#[test]
fn cursor_wraps_to_zero_exactly_at_capacity() {
    assert_eq!(advance_with_wrap(0, 4), 1);
    assert_eq!(advance_with_wrap(2, 4), 3);
    assert_eq!(advance_with_wrap(3, 4), 0);
    assert_eq!(advance_with_wrap(0, 1), 0);
}
