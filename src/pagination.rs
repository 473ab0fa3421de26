//! Offset pagination shared by the user listing and the tweet feed.
use vstd::prelude::*;

verus! {

/// Why a page request cannot be served.
#[derive(Clone, Copy, Debug, PartialEq, Eq, Structural)]
pub enum PageError {
    /// `page` or `per_page` is below 1, a count is negative, or the offset overflows.
    InvalidPage,
}

/// The rows to fetch: skip `offset` rows, then take at most `limit`.
#[derive(Clone, Copy, Debug, PartialEq, Eq, Structural)]
pub struct PageWindow {
    pub offset: i64,
    pub limit: i64,
}

/// The pagination part of a listing's envelope.
#[derive(Clone, Copy, Debug, PartialEq, Eq, Structural)]
pub struct Pagination {
    pub page: i64,
    pub per_page: i64,
    pub total_count: i64,
    pub total_pages: i64,
    pub has_next: bool,
    pub has_prev: bool,
}

/// `page` and `per_page` are at least 1 and the offset of the page fits an `i64`.
pub open spec fn valid_page(page: int, per_page: int) -> bool {
    page >= 1 && per_page >= 1 && (page - 1) * per_page <= i64::MAX
}

/// The number of rows skipped before page `page`.
pub open spec fn page_offset(page: int, per_page: int) -> int {
    (page - 1) * per_page
}

/// The number of pages needed for `total` rows, `per_page` at a time.
pub open spec fn page_count(total: int, per_page: int) -> int {
    if total % per_page == 0 { total / per_page } else { total / per_page + 1 }
}

/// The number of rows that page `page` holds when `total` rows match.
pub open spec fn rows_on_page(total: int, page: int, per_page: int) -> int {
    let offset = page_offset(page, per_page);
    if total <= offset {
        0
    } else if total - offset >= per_page {
        per_page
    } else {
        total - offset
    }
}

/// The window of page `page` (counted from 1) with `per_page` rows per page.
pub fn page_window(page: i64, per_page: i64) -> (r: Result<PageWindow, PageError>)
    ensures
        r is Ok <==> valid_page(page as int, per_page as int),
        r matches Ok(w) ==> w.offset == page_offset(page as int, per_page as int) && w.limit
            == per_page,
        r matches Err(e) ==> e == PageError::InvalidPage,
{
    if page < 1 || per_page < 1 {
        return Err(PageError::InvalidPage);
    }
    match (page - 1).checked_mul(per_page) {
        Some(offset) => Ok(PageWindow { offset, limit: per_page }),
        None => Err(PageError::InvalidPage),
    }
}

/// The envelope of page `page` when `total_count` rows match: `total_pages` is the
/// ceiling of `total_count / per_page`, `has_next` says `page < total_pages` and
/// `has_prev` says `page > 1`. A page past the end is no error.
pub fn paginate(page: i64, per_page: i64, total_count: i64) -> (r: Result<Pagination, PageError>)
    ensures
        r is Ok <==> page >= 1 && per_page >= 1 && total_count >= 0,
        r matches Ok(p) ==> {
            &&& p.page == page
            &&& p.per_page == per_page
            &&& p.total_count == total_count
            &&& p.total_pages == page_count(total_count as int, per_page as int)
            &&& p.has_next == (page < p.total_pages)
            &&& p.has_prev == (page > 1)
        },
        r matches Err(e) ==> e == PageError::InvalidPage,
{
    if page < 1 || per_page < 1 || total_count < 0 {
        return Err(PageError::InvalidPage);
    }
    let whole = total_count / per_page;
    assert(total_count % per_page != 0 ==> whole < i64::MAX) by (nonlinear_arith)
        requires
            whole == total_count / per_page,
            0 <= total_count <= i64::MAX,
            per_page >= 1,
    {
        if total_count % per_page != 0 {
            assert(per_page != 1);
            assert(whole * per_page <= total_count);
        }
    }
    let total_pages = if total_count % per_page == 0 { whole } else { whole + 1 };
    Ok(Pagination {
        page,
        per_page,
        total_count,
        total_pages,
        has_next: page < total_pages,
        has_prev: page > 1,
    })
}

/// How many rows page `page` yields when `total_count` rows match.
pub fn page_row_count(total_count: i64, page: i64, per_page: i64) -> (r: Result<i64, PageError>)
    ensures
        r is Ok <==> valid_page(page as int, per_page as int) && total_count >= 0,
        r matches Ok(n) ==> n == rows_on_page(total_count as int, page as int, per_page as int),
        r matches Err(e) ==> e == PageError::InvalidPage,
{
    if total_count < 0 {
        return Err(PageError::InvalidPage);
    }
    let w = page_window(page, per_page)?;
    if total_count <= w.offset {
        Ok(0)
    } else if total_count - w.offset >= per_page {
        Ok(per_page)
    } else {
        Ok(total_count - w.offset)
    }
}

/// A page past the last one holds no rows and has no next page.
pub proof fn lemma_page_past_end_is_empty(total: int, page: int, per_page: int)
    requires
        total >= 0,
        page >= 1,
        per_page >= 1,
        page > page_count(total, per_page),
    ensures
        rows_on_page(total, page, per_page) == 0,
        !(page < page_count(total, per_page)),
{
    assert(page_count(total, per_page) * per_page >= total) by (nonlinear_arith)
        requires
            per_page >= 1,
            total >= 0,
            page_count(total, per_page) == (if total % per_page == 0 { total / per_page } else { total / per_page + 1 }),
    {
        assert(total == (total / per_page) * per_page + total % per_page);
    }
    assert((page - 1) * per_page >= page_count(total, per_page) * per_page) by (nonlinear_arith)
        requires
            page - 1 >= page_count(total, per_page),
            per_page >= 1,
    {
    }
}

} // verus!
