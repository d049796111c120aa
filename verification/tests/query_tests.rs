use rust_axum_image_bbs::query::{default_page, PaginationQuery};

#[test]
fn default_page_is_one() {
    assert_eq!(default_page(), 1);
    assert_eq!(PaginationQuery::from_raw(None).page, 1);
}

#[test]
fn numbers_are_read() {
    assert_eq!(PaginationQuery::from_raw(Some("1")).page, 1);
    assert_eq!(PaginationQuery::from_raw(Some("12")).page, 12);
    assert_eq!(PaginationQuery::from_raw(Some("007")).page, 7);
    assert_eq!(PaginationQuery::from_raw(Some("4294967295")).page, u32::MAX);
    assert_eq!(PaginationQuery::from_raw(Some("+2")).page, 2);
    assert_eq!(PaginationQuery::from_raw(Some("0")).page, 0);
    assert_eq!(PaginationQuery::from_raw(Some("000")).page, 0);
}

#[test]
fn invalid_pages_fall_back_to_one() {
    for raw in ["", "-1", "-3", "-0", "abc", "1a", "+", "++2", "+-1", " 2", "4294967296", "99999999999999999999", "２"] {
        assert_eq!(PaginationQuery::from_raw(Some(raw)).page, 1, "raw = {:?}", raw);
    }
}

#[test]
fn reads_pages_as_u32_from_str_does() {
    for raw in ["", "0", "1", "+0", "+", "-", "-0", "12", "+12", "007", "4294967295", "4294967296",
                "+4294967295", "1 ", "x1", "1x", "00000000000000000001", "٣"] {
        let expected = raw.parse::<u32>().unwrap_or(1);
        assert_eq!(PaginationQuery::from_raw(Some(raw)).page, expected, "raw = {:?}", raw);
    }
}
