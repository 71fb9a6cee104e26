use mechaburro::util::num_ext::RangedWrap;

#[test]
fn usize_increment_steps_and_wraps() {
    assert_eq!(3usize.circular_increment(0, 5), 4);
    assert_eq!(5usize.circular_increment(0, 5), 0);
    assert_eq!(7usize.circular_increment(7, 7), 7);
    assert_eq!(2usize.circular_increment(1, 3), 3);
    assert_eq!(3usize.circular_increment(1, 3), 1);
}

#[test]
fn usize_decrement_steps_and_wraps() {
    assert_eq!(3usize.circular_decrement(0, 5), 2);
    assert_eq!(0usize.circular_decrement(0, 5), 5);
    assert_eq!(1usize.circular_decrement(1, 3), 3);
}

#[test]
fn usize_out_of_range_value_wraps_into_range() {
    assert_eq!(9usize.circular_increment(0, 3), 2);
    assert_eq!(9usize.circular_decrement(0, 3), 0);
}

#[test]
fn isize_increment_and_decrement() {
    assert_eq!(2isize.circular_increment(0, 2), 0);
    assert_eq!(0isize.circular_decrement(0, 2), 2);
    assert_eq!((-1isize).circular_increment(-1, 1), 0);
    assert_eq!((-1isize).circular_decrement(-1, 1), 1);
    assert_eq!(1isize.circular_increment(1, 7), 2);
    assert_eq!(7isize.circular_increment(1, 7), 1);
}

#[test]
fn isize_below_range_uses_truncating_remainder() {
    assert_eq!((-3isize).circular_increment(0, 2), -2);
    assert_eq!((-1isize).circular_increment(0, 2), 0);
}

#[test]
fn round_trip_returns_to_start() {
    for lower in 0usize..3 {
        for upper in lower..6 {
            for value in lower..=upper {
                let up = value.circular_increment(lower, upper);
                assert!(lower <= up && up <= upper);
                assert_eq!(up.circular_decrement(lower, upper), value);
                let down = value.circular_decrement(lower, upper);
                assert_eq!(down.circular_increment(lower, upper), value);
            }
        }
    }
    for value in -2isize..=2 {
        assert_eq!(value.circular_increment(-2, 2).circular_decrement(-2, 2), value);
    }
}
