use editoast::pagination::page_window;

#[test]
fn first_page_starts_at_zero() {
    assert_eq!(page_window(1, 10), Some((0, 10)));
}

#[test]
fn later_pages_skip_earlier_rows() {
    assert_eq!(page_window(3, 25), Some((50, 25)));
}

#[test]
fn page_and_size_start_at_one() {
    assert_eq!(page_window(0, 10), None);
    assert_eq!(page_window(1, 0), None);
    assert_eq!(page_window(-2, 5), None);
}

#[test]
fn offset_beyond_i64_has_no_window() {
    assert_eq!(page_window(i64::MAX, 2), None);
    assert_eq!(page_window(2, i64::MAX), Some((i64::MAX, i64::MAX)));
}
