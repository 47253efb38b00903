//! Query-parameter shapes of the read API and the pagination arithmetic
//! the history endpoint applies to a filtered list of readings. The HTTP
//! plumbing around them lives with the caller.

use vstd::prelude::*;

verus! {

/// Query parameters for reading history.
#[derive(Debug, Clone, Copy)]
pub struct HistoryQuery {
    pub page: Option<u32>,
    pub limit: Option<u32>,
    pub minutes: Option<i64>,
}

/// Query parameters for the bundle of recent observations.
#[derive(Debug, Clone, Copy)]
pub struct BundleQuery {
    pub count: Option<usize>,
}

/// One page of a list of `total` items: the half-open index range to
/// serve and the total page count.
#[derive(Debug, Clone, Copy, PartialEq, Eq, Structural)]
pub struct PageSlice {
    pub start: usize,
    pub end: usize,
    pub total_pages: u32,
}

/// Where page `page` (1-based) of `limit` items begins, clipped to the
/// list: `(page - 1) * limit`, or the end of the list if that lies
/// beyond it.
pub open spec fn spec_page_start(total: int, page: int, limit: int) -> int {
    if (page - 1) * limit <= total {
        (page - 1) * limit
    } else {
        total
    }
}

/// Where the page ends, clipped to the list.
pub open spec fn spec_page_end(total: int, page: int, limit: int) -> int {
    if spec_page_start(total, page, limit) + limit <= total {
        spec_page_start(total, page, limit) + limit
    } else {
        total
    }
}

/// The number of pages `total` items make at `limit` per page, rounded
/// up, saturated to the field width.
pub open spec fn spec_total_pages(total: int, limit: int) -> int {
    let pages = (total + limit - 1) / limit;
    if pages <= u32::MAX {
        pages
    } else {
        u32::MAX as int
    }
}

/// Compute the index range of one result page and the total page count.
pub fn page_bounds(total: usize, page: u32, limit: u32) -> (r: PageSlice)
    requires
        page >= 1,
        1 <= limit <= 1000,
    ensures
        r.start == spec_page_start(total as int, page as int, limit as int),
        r.end == spec_page_end(total as int, page as int, limit as int),
        r.start <= r.end <= total,
        r.total_pages == spec_total_pages(total as int, limit as int),
{
    proof {
        assert((page as int - 1) * (limit as int) <= 0x1_0000_0000 * 1000) by (nonlinear_arith)
            requires
                1 <= page <= u32::MAX,
                1 <= limit <= 1000,
        ;
    }
    let wanted: u128 = (page as u128 - 1) * (limit as u128);
    let start: usize = if wanted <= total as u128 {
        wanted as usize
    } else {
        total
    };
    let end: usize = if start as u128 + limit as u128 <= total as u128 {
        start + limit as usize
    } else {
        total
    };
    let pages_wide: u128 = (total as u128 + limit as u128 - 1) / (limit as u128);
    let total_pages: u32 = if pages_wide <= u32::MAX as u128 {
        pages_wide as u32
    } else {
        u32::MAX
    };
    PageSlice { start, end, total_pages }
}

} // verus!
