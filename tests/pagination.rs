use socialnet::pagination::{page_row_count, page_window, paginate, PageError, PageWindow};
use socialnet::requests::{tweets, users};

#[test]
fn forty_five_rows_twenty_per_page() {
    let p1 = paginate(1, 20, 45).unwrap();
    assert_eq!(p1.total_pages, 3);
    assert!(p1.has_next);
    assert!(!p1.has_prev);
    assert_eq!(page_row_count(45, 1, 20), Ok(20));

    let p3 = paginate(3, 20, 45).unwrap();
    assert!(!p3.has_next);
    assert!(p3.has_prev);
    assert_eq!(page_row_count(45, 3, 20), Ok(5));

    let p4 = paginate(4, 20, 45).unwrap();
    assert!(!p4.has_next);
    assert_eq!(page_row_count(45, 4, 20), Ok(0));
}

#[test]
fn envelope_fields() {
    let p = paginate(2, 20, 45).unwrap();
    assert_eq!((p.page, p.per_page, p.total_count, p.total_pages), (2, 20, 45, 3));
    assert!(p.has_next && p.has_prev);
    assert_eq!(paginate(1, 20, 40).unwrap().total_pages, 2);
    assert_eq!(paginate(1, 20, 0).unwrap().total_pages, 0);
    assert!(!paginate(1, 20, 0).unwrap().has_next);
    assert_eq!(paginate(1, 1, i64::MAX).unwrap().total_pages, i64::MAX);
    assert_eq!(paginate(1, 2, i64::MAX).unwrap().total_pages, i64::MAX / 2 + 1);
}

#[test]
fn window_offsets() {
    assert_eq!(page_window(1, 20), Ok(PageWindow { offset: 0, limit: 20 }));
    assert_eq!(page_window(3, 20), Ok(PageWindow { offset: 40, limit: 20 }));
    assert_eq!(page_window(i64::MAX, 2), Err(PageError::InvalidPage));
}

#[test]
fn invalid_pages_are_refused() {
    assert_eq!(paginate(0, 20, 5), Err(PageError::InvalidPage));
    assert_eq!(paginate(1, 0, 5), Err(PageError::InvalidPage));
    assert_eq!(paginate(1, 20, -1), Err(PageError::InvalidPage));
    assert_eq!(page_window(-3, 20), Err(PageError::InvalidPage));
    assert_eq!(page_row_count(-1, 1, 20), Err(PageError::InvalidPage));
}

#[test]
fn query_defaults() {
    assert_eq!(tweets::default_page(), 1);
    assert_eq!(tweets::default_per_page(), 20);
    assert_eq!(users::default_page(), 1);
    assert_eq!(users::default_per_page(), 20);
}
