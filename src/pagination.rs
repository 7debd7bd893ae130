//! Pagination: turning a requested page and page size, and the total number of
//! matching items, into the page actually served and the number of pages.
use vstd::prelude::*;

verus! {

/// Items per page when the caller does not say.
pub const DEFAULT_PER_PAGE: u32 = 9;

/// What a paginated query asks the storage for; `page` counts from 1.
#[derive(Debug)]
pub struct PaginationParameters {
    pub page: u32,
    pub items_per_page: u32,
    pub query: Option<String>,
}

/// The envelope that goes back with a page of results.
#[derive(Debug, Clone, Copy, PartialEq, Eq, Structural)]
pub struct PaginationResponse {
    pub current_page: u32,
    pub total_items: u64,
    pub total_pages: u32,
}

/// The page served: the requested one, or 1 when none or 0 was requested.
pub open spec fn served_page(page: Option<u32>) -> u32 {
    match page {
        Some(p) => if p == 0 {
            1
        } else {
            p
        },
        None => 1,
    }
}

/// The page size used: the requested one, or the default.
pub open spec fn served_per_page(per_page: Option<u32>) -> u32 {
    match per_page {
        Some(n) => n,
        None => DEFAULT_PER_PAGE,
    }
}

/// `total / per`, rounded up.
pub open spec fn ceil_div(total: nat, per: nat) -> nat
    recommends
        per > 0,
{
    total / per + if total % per == 0 {
        0nat
    } else {
        1nat
    }
}

/// The number of pages of `per` items that `total` items fill, as a `u32`:
/// saturated at `u32::MAX`; with a page size of 0, no page when there is no
/// item and `u32::MAX` otherwise.
pub open spec fn page_count(total: u64, per: u32) -> u32 {
    if per == 0 {
        if total == 0 {
            0
        } else {
            u32::MAX
        }
    } else if ceil_div(total as nat, per as nat) > u32::MAX {
        u32::MAX
    } else {
        ceil_div(total as nat, per as nat) as u32
    }
}

/// The envelope for page `page` (from 1) of `per` items over `total` items.
pub open spec fn envelope(page: Option<u32>, per_page: Option<u32>, total: u64) -> PaginationResponse {
    PaginationResponse {
        current_page: served_page(page),
        total_items: total,
        total_pages: page_count(total, served_per_page(per_page)),
    }
}

/// Position of the first item of page `page` (from 1) of `per` items.
pub open spec fn page_start(page: u32, per: u32) -> int {
    if page == 0 {
        0
    } else {
        (page - 1) * per
    }
}

/// The items of `s` that page `page` of `per` items shows.
pub open spec fn page_window<T>(s: Seq<T>, page: u32, per: u32) -> Seq<T> {
    let start = page_start(page, per);
    if start >= s.len() {
        Seq::empty()
    } else if start + per >= s.len() {
        s.subrange(start, s.len() as int)
    } else {
        s.subrange(start, start + per)
    }
}

/// The parameters handed to the storage for a request: the page defaults to
/// 1 (also in place of 0) and the page size to `DEFAULT_PER_PAGE`.
pub fn resolve_parameters(page: Option<u32>, per_page: Option<u32>) -> (r: PaginationParameters)
    ensures
        r.page == served_page(page),
        r.items_per_page == served_per_page(per_page),
        r.query is None,
{
    let items_per_page = match per_page {
        Some(n) => n,
        None => DEFAULT_PER_PAGE,
    };
    let page = match page {
        Some(p) => if p == 0 {
            1
        } else {
            p
        },
        None => 1,
    };
    PaginationParameters { page, items_per_page, query: None }
}

/// The number of pages of `per` items that `total` items fill.
pub fn total_pages(total: u64, per: u32) -> (r: u32)
    ensures
        r == page_count(total, per),
{
    if per == 0 {
        if total == 0 {
            0
        } else {
            u32::MAX
        }
    } else {
        let per64 = per as u64;
        let whole: u64 = total / per64;
        let extra: u64 = if total % per64 == 0 {
            0
        } else {
            1
        };
        let pages: u128 = whole as u128 + extra as u128;
        if pages > u32::MAX as u128 {
            u32::MAX
        } else {
            pages as u32
        }
    }
}

/// The envelope for a query: served page, total items and page count.
pub fn paginate(page: Option<u32>, per_page: Option<u32>, total_items: u64) -> (r: PaginationResponse)
    ensures
        r == envelope(page, per_page, total_items),
{
    let params = resolve_parameters(page, per_page);
    PaginationResponse {
        current_page: params.page,
        total_items,
        total_pages: total_pages(total_items, params.items_per_page),
    }
}

/// The page count is the rounded-up quotient: enough pages for every item,
/// and no page left empty.
pub proof fn lemma_page_count_is_ceiling(total: u64, per: u32)
    requires
        per > 0,
        ceil_div(total as nat, per as nat) <= u32::MAX,
    ensures
        page_count(total, per) as int * per as int >= total as int,
        (page_count(total, per) as int - 1) * (per as int) < total as int || total == 0,
{
    let q = total as int / per as int;
    let m = total as int % per as int;
    assert(total as int == q * per as int + m) by (nonlinear_arith)
        requires
            per > 0,
            q == total as int / per as int,
            m == total as int % per as int,
    ;
    assert(0 <= m < per as int) by (nonlinear_arith)
        requires
            per > 0,
            m == total as int % per as int,
    ;
    if m == 0 {
        assert(q * per as int >= total as int);
        if total > 0 {
            assert(q >= 1) by (nonlinear_arith)
                requires
                    total as int == q * per as int,
                    total > 0,
                    per > 0,
            ;
            assert((q - 1) * per as int == q * per as int - per as int) by (nonlinear_arith);
        }
    } else {
        assert((q + 1) * per as int == q * per as int + per as int) by (nonlinear_arith);
    }
}

} // verus!
