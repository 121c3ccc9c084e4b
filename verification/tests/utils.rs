use mp4_parser::utils::{get_range, get_range_from, get_start_seek};

#[test]
fn range_is_moved_up_by_the_offset() {
    assert_eq!(get_range(0, 4..8), 4..8);
    assert_eq!(get_range(100, 4..8), 104..108);
    assert_eq!(get_range(100, 0..0), 100..100);
    assert_eq!(get_range(usize::MAX - 8, 4..8), usize::MAX - 4..usize::MAX);
}

#[test]
fn range_without_an_end_is_moved_up_by_the_offset() {
    assert_eq!(get_range_from(0, 12..), 12..);
    assert_eq!(get_range_from(30, 12..), 42..);
    assert_eq!(get_range_from(usize::MAX - 12, 12..), usize::MAX..);
}

#[test]
fn start_seek_is_one_before_or_zero() {
    assert_eq!(get_start_seek(0), 0);
    assert_eq!(get_start_seek(1), 0);
    assert_eq!(get_start_seek(2), 1);
    assert_eq!(get_start_seek(usize::MAX), usize::MAX - 1);
}
