use audio_decoder::clock::{is_before_start, seek_position, NANOS_PER_MILLI};

#[test]
fn a_millisecond_is_a_million_nanoseconds() {
    assert_eq!(NANOS_PER_MILLI, 1_000_000);
}

#[test]
fn seek_position_is_the_offset_in_nanoseconds() {
    assert_eq!(seek_position(0), Some(0));
    assert_eq!(seek_position(1), Some(1_000_000));
    assert_eq!(seek_position(5000), Some(5_000_000_000));
}

#[test]
fn seek_position_at_the_edge_of_the_range() {
    let last = u64::MAX / 1_000_000;
    assert_eq!(last, 18_446_744_073_709);
    assert_eq!(seek_position(last), Some(18_446_744_073_709_000_000));
    assert_eq!(seek_position(last + 1), None);
    assert_eq!(seek_position(u64::MAX), None);
}

#[test]
fn nothing_is_trimmed_without_a_start_offset() {
    assert!(!is_before_start(Some(0), None));
    assert!(!is_before_start(Some(u64::MAX), None));
    assert!(!is_before_start(None, None));
}

#[test]
fn blocks_before_the_offset_are_trimmed() {
    assert!(is_before_start(Some(0), Some(5000)));
    assert!(is_before_start(Some(4_999_999_999), Some(5000)));
    assert!(!is_before_start(Some(5_000_000_000), Some(5000)));
    assert!(!is_before_start(Some(5_000_000_001), Some(5000)));
}

#[test]
fn an_offset_of_zero_trims_only_unstamped_blocks() {
    assert!(!is_before_start(Some(0), Some(0)));
    assert!(is_before_start(None, Some(0)));
}

#[test]
fn unstamped_blocks_sort_before_every_offset() {
    assert!(is_before_start(None, Some(1)));
    assert!(is_before_start(None, Some(u64::MAX)));
}

#[test]
fn an_offset_beyond_the_range_trims_everything() {
    assert!(is_before_start(Some(u64::MAX), Some(u64::MAX)));
    assert!(is_before_start(Some(0), Some(18_446_744_073_710)));
}
