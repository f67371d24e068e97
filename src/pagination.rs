//! Paging of listed rows: pages are numbered from 1 and hold `page_size` rows.
use vstd::prelude::*;

verus! {

/// A page of rows, ordered by identifier, with the number of rows in all.
#[derive(Debug)]
pub struct PaginatedResponse<T> {
    pub count: i64,
    pub results: Vec<T>,
}

/// The rows that page `page` covers: `(offset, limit)` with offset
/// `(page - 1) * page_size` and limit `page_size`. No window exists for a
/// page below 1, a page size below 1, or an offset beyond `i64`.
pub fn page_window(page: i64, page_size: i64) -> (r: Option<(i64, i64)>)
    ensures
        r is Some <==> page >= 1 && page_size >= 1 && (page - 1) * page_size <= i64::MAX,
        r matches Some((offset, limit)) ==> offset == (page - 1) * page_size && limit == page_size,
{
    if page < 1 || page_size < 1 {
        return None;
    }
    match (page - 1).checked_mul(page_size) {
        Some(offset) => Some((offset, page_size)),
        None => None,
    }
}

} // verus!
