use zlib::{compress, compress_with_capacity, is_valid_level, Error, MAX_LEVEL, MIN_LEVEL};

#[test]
fn the_range_of_levels_is_zero_to_nine() {
    assert_eq!(MIN_LEVEL, 0);
    assert_eq!(MAX_LEVEL, 9);
}

#[test]
fn level_minus_one_is_refused() {
    assert_eq!(compress(&[1, 2, 3], -1), Err(Error::InvalidArgument));
    assert_eq!(compress(&[], -1), Err(Error::InvalidArgument));
}

#[test]
fn level_ten_is_refused() {
    assert_eq!(compress(&[1, 2, 3], 10), Err(Error::InvalidArgument));
    assert_eq!(compress(&[], 10), Err(Error::InvalidArgument));
}

#[test]
fn far_away_levels_are_refused() {
    for level in [isize::MIN, -1000, -2, 11, 100, 1 << 32, isize::MAX] {
        assert_eq!(compress(b"abc", level), Err(Error::InvalidArgument));
    }
}

#[test]
fn every_level_in_range_is_accepted() {
    for level in MIN_LEVEL..=MAX_LEVEL {
        assert!(compress(b"abc", level).is_ok());
    }
}

#[test]
fn the_level_is_checked_before_the_capacity() {
    assert_eq!(compress_with_capacity(b"abc", 10, 0), Err(Error::InvalidArgument));
    assert_eq!(compress_with_capacity(b"abc", -1, 1000), Err(Error::InvalidArgument));
}

#[test]
fn a_refused_level_carries_no_status() {
    assert_eq!(compress(b"abc", 10).unwrap_err().code(), None);
}

#[test]
fn the_levels_in_range_and_their_neighbours() {
    for level in 0..=9 {
        assert!(is_valid_level(level));
    }
    for level in [isize::MIN, -2, -1, 10, 11, isize::MAX] {
        assert!(!is_valid_level(level));
    }
}
