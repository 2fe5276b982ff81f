//! The arithmetic of paging through a listing.

use crate::rest_api::models::PaginationParams;
use vstd::prelude::*;

verus! {

/// How many pages of `per_page` items hold `total` items: the quotient
/// rounded up.
pub open spec fn pages_needed(total: nat, per_page: nat) -> nat
    recommends
        per_page >= 1,
{
    ((total + per_page - 1) / (per_page as int)) as nat
}

/// Index of the first item of page `page`, or `total` where the page lies
/// past the end.
pub open spec fn window_start(total: nat, page: nat, per_page: nat) -> nat
    recommends
        page >= 1,
{
    if (page - 1) * per_page >= total {
        total
    } else {
        ((page - 1) * per_page) as nat
    }
}

/// Index one past the last item of page `page`.
pub open spec fn window_end(total: nat, page: nat, per_page: nat) -> nat
    recommends
        page >= 1,
{
    if window_start(total, page, per_page) + per_page >= total {
        total
    } else {
        window_start(total, page, per_page) + per_page
    }
}

/// The items of page `page` when `items` is cut into pages of `per_page`.
pub open spec fn page_of<T>(items: Seq<T>, page: nat, per_page: nat) -> Seq<T>
    recommends
        page >= 1,
{
    items.subrange(
        window_start(items.len(), page, per_page) as int,
        window_end(items.len(), page, per_page) as int,
    )
}

/// The page number in effect.
pub fn effective_page(pagination: &PaginationParams) -> (page: u64)
    ensures
        page == pagination.page_number(),
{
    if pagination.page == 0 {
        1
    } else {
        pagination.page
    }
}

/// The page size in effect.
pub fn effective_per_page(pagination: &PaginationParams) -> (per_page: u64)
    ensures
        per_page == pagination.page_size(),
{
    if pagination.per_page == 0 {
        1
    } else {
        pagination.per_page
    }
}

/// The half-open index range of the requested page within a listing of
/// `total` items.
pub fn page_window(total: usize, pagination: &PaginationParams) -> (w: (usize, usize))
    ensures
        w.0 == window_start(total as nat, pagination.page_number(), pagination.page_size()),
        w.1 == window_end(total as nat, pagination.page_number(), pagination.page_size()),
        w.0 <= w.1 <= total,
{
    let page = effective_page(pagination);
    let per_page = effective_per_page(pagination);
    let before: u128 = (page - 1) as u128;
    let size: u128 = per_page as u128;
    assert(before * size <= 0xffff_ffff_ffff_ffff * 0xffff_ffff_ffff_ffff) by (nonlinear_arith)
        requires
            0 <= before <= 0xffff_ffff_ffff_ffff,
            0 <= size <= 0xffff_ffff_ffff_ffff,
    ;
    let skipped: u128 = before * size;
    let start: usize = if skipped >= total as u128 {
        total
    } else {
        skipped as usize
    };
    let end: usize = if size >= (total - start) as u128 {
        total
    } else {
        start + per_page as usize
    };
    (start, end)
}

/// How many pages the listing fills.
pub fn count_pages(total: usize, pagination: &PaginationParams) -> (pages: u64)
    ensures
        pages == pages_needed(total as nat, pagination.page_size()),
{
    let per_page = effective_per_page(pagination);
    if total == 0 {
        proof {
            vstd::arithmetic::div_mod::lemma_basic_div(per_page - 1, per_page as int);
        }
        0
    } else {
        let last: u64 = (total - 1) as u64;
        let full: u64 = last / per_page;
        proof {
            lemma_ceiling(last as int, per_page as int);
        }
        full + 1
    }
}

/// For `d >= 1`, adding `d` to the dividend adds 1 to the quotient.
proof fn lemma_ceiling(n: int, d: int)
    requires
        n >= 0,
        d >= 1,
    ensures
        (n + d) / d == n / d + 1,
        n / d <= n,
{
    vstd::arithmetic::div_mod::lemma_fundamental_div_mod(n, d);
    vstd::arithmetic::div_mod::lemma_fundamental_div_mod(n + d, d);
    vstd::arithmetic::div_mod::lemma_div_plus_one(n, d);
    vstd::arithmetic::div_mod::lemma_div_is_ordered_by_denominator(n, 1, d);
}

/// The page count is the least number of pages of `per_page` items that hold
/// `total` items: none for no items, and otherwise the last page is the
/// first to reach the end.
pub proof fn law_pages_needed(total: nat, per_page: nat)
    requires
        per_page >= 1,
    ensures
        total == 0 <==> pages_needed(total, per_page) == 0,
        total > 0 ==> (pages_needed(total, per_page) - 1) * per_page < total <= pages_needed(
            total,
            per_page,
        ) * per_page,
{
    let n = total + per_page - 1;
    let d = per_page as int;
    let q = n / d;
    vstd::arithmetic::div_mod::lemma_fundamental_div_mod(n, d);
    vstd::arithmetic::div_mod::lemma_mod_bound(n, d);
    vstd::arithmetic::div_mod::lemma_div_pos_is_pos(n, d);
    assert((q - 1) * d == d * q - d) by (nonlinear_arith);
    assert(q * d == d * q) by (nonlinear_arith);
    if total == 0 {
        vstd::arithmetic::div_mod::lemma_basic_div(n, d);
    } else {
        assert(q >= 1) by (nonlinear_arith)
            requires
                n == d * q + n % d,
                n >= d,
                n % d < d,
                d >= 1,
        ;
    }
}

/// The pages cut the listing into consecutive runs: page `page` starts after
/// `(page - 1) * per_page` items, every page before the last is full, the last
/// holds the rest, and later pages are empty.
pub proof fn law_page_of<T>(items: Seq<T>, page: nat, per_page: nat)
    requires
        page >= 1,
        per_page >= 1,
    ensures
        page < pages_needed(items.len(), per_page) ==> page_of(items, page, per_page).len()
            == per_page,
        page == pages_needed(items.len(), per_page) ==> page_of(items, page, per_page).len()
            == items.len() - (page - 1) * per_page,
        page > pages_needed(items.len(), per_page) ==> page_of(items, page, per_page).len() == 0,
        forall|i: int|
            0 <= i < page_of(items, page, per_page).len() ==> #[trigger] page_of(
                items,
                page,
                per_page,
            )[i] == items[(page - 1) * per_page + i],
{
    let total = items.len();
    let pages = pages_needed(total, per_page);
    let before = (page - 1) * per_page;
    law_pages_needed(total, per_page);
    assert(before >= 0) by (nonlinear_arith)
        requires
            before == (page - 1) * per_page,
            page >= 1,
            per_page >= 1,
    ;
    if page < pages {
        assert(before + per_page <= (pages - 1) * per_page) by (nonlinear_arith)
            requires
                before == (page - 1) * per_page,
                page <= pages - 1,
                per_page >= 1,
        ;
    } else if page == pages {
        assert(before + per_page == pages * per_page) by (nonlinear_arith)
            requires
                before == (page - 1) * per_page,
                page == pages,
        ;
    } else {
        assert(before >= pages * per_page) by (nonlinear_arith)
            requires
                before == (page - 1) * per_page,
                page - 1 >= pages,
                per_page >= 1,
        ;
    }
}

} // verus!
