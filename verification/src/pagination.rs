//! Page windows of the list and analytics views.

use vstd::prelude::*;

verus! {

/// Rows per page of the URL, page and user lists.
pub const PAGE_SIZE: usize = 25;
/// Rows per page of the analytics visitor logs.
pub const ANALYTICS_PAGE_SIZE: usize = 50;

/// The result of paging a list.
pub struct Pagination {
    pub total_pages: usize,
    pub current_page: usize,
    pub offset: usize,
    /// The page links shown: up to three on each side of the current page.
    pub visible_pages: Vec<usize>,
}

/// `n / d` rounded up (std `usize::div_ceil`).
pub open spec fn ceil_div(n: nat, d: nat) -> nat
    recommends
        d > 0,
{
    n / d + if n % d == 0 { 0nat } else { 1nat }
}

/// Number of pages for `n` rows: never fewer than one.
pub open spec fn page_count(n: nat, size: nat) -> nat {
    let c = ceil_div(n, size);
    if c < 1 { 1 } else { c }
}

/// The page shown for a requested page: a missing or zero request means the
/// first page, and the request is clamped to the existing pages.
pub open spec fn chosen_page(requested: Option<usize>, total: nat) -> nat {
    let r: nat = match requested {
        Some(p) => if p == 0 { 1 } else { p as nat },
        None => 1,
    };
    if r > total { total } else { r }
}

pub open spec fn window_start(current: nat) -> nat {
    if current >= 4 { (current - 3) as nat } else { 1 }
}

pub open spec fn window_end(current: nat, total: nat) -> nat {
    if current + 3 < total { current + 3 } else { total }
}

/// The page numbers `start..=end`.
pub open spec fn page_range(start: nat, end: nat) -> Seq<usize> {
    Seq::new(if end >= start { (end - start + 1) as nat } else { 0 }, |i: int| (start + i) as usize)
}

/// The total record count as the page arithmetic sees it (`as usize`).
pub open spec fn record_count(total_records: i64) -> nat {
    (total_records as usize) as nat
}

/// What paging `total_records` rows gives for a requested page.
pub open spec fn pagination_valid(
    p: Pagination,
    total_records: i64,
    page_size: usize,
    requested: Option<usize>,
) -> bool {
    let n = record_count(total_records);
    let total = page_count(n, page_size as nat);
    let cur = chosen_page(requested, total);
    &&& p.total_pages == total
    &&& p.current_page == cur
    &&& p.offset == (cur - 1) * page_size
    &&& p.visible_pages@ == page_range(window_start(cur), window_end(cur, total))
}

proof fn lemma_offset_below(n: nat, size: nat, cur: nat)
    requires
        size > 0,
        1 <= cur <= page_count(n, size),
    ensures
        (cur - 1) * size <= n,
        n > 0 ==> (cur - 1) * size < n,
{
    let q = n / size;
    let r = n % size;
    assert(n == q * size + r) by (nonlinear_arith)
        requires q == n / size, r == n % size, size > 0;
    assert(r < size) by (nonlinear_arith)
        requires r == n % size, size > 0;
    if n == 0 {
        assert(q == 0) by (nonlinear_arith)
            requires q == n / size, n == 0, size > 0;
        assert(cur == 1);
    } else if r == 0 {
        assert(q >= 1) by (nonlinear_arith)
            requires n == q * size + r, r == 0, n > 0, size > 0;
        assert(cur - 1 < q);
        assert((cur - 1) * size < q * size) by (nonlinear_arith)
            requires cur - 1 < q, size > 0;
    } else {
        assert(cur - 1 <= q);
        assert((cur - 1) * size <= q * size) by (nonlinear_arith)
            requires cur - 1 <= q, size > 0;
    }
}

/// Pages `total_records` rows into pages of `page_size` and picks the page to
/// show for the requested one.
pub fn paginate(total_records: i64, page_size: usize, requested: Option<usize>) -> (p: Pagination)
    requires
        page_size > 0,
        ceil_div(record_count(total_records), page_size as nat) + 3 <= usize::MAX,
    ensures
        pagination_valid(p, total_records, page_size, requested),
        1 <= p.current_page <= p.total_pages,
        p.offset <= record_count(total_records),
        record_count(total_records) > 0 ==> p.offset < record_count(total_records),
{
    let n = total_records as usize;
    let calculated = n / page_size + if n % page_size == 0 { 0 } else { 1 };
    let total_pages = if calculated < 1 { 1 } else { calculated };
    let requested_page = match requested {
        Some(p) => p,
        None => 1,
    };
    let r = if requested_page == 0 { 1 } else { requested_page };
    let current_page = if r > total_pages { total_pages } else { r };
    proof {
        lemma_offset_below(n as nat, page_size as nat, current_page as nat);
    }
    let offset = (current_page - 1) * page_size;
    let start_page = if current_page >= 4 { current_page - 3 } else { 1 };
    let end_page = if current_page + 3 < total_pages { current_page + 3 } else { total_pages };
    let mut visible_pages: Vec<usize> = Vec::new();
    let mut k = start_page;
    while k <= end_page
        invariant
            start_page <= k <= end_page + 1,
            end_page < usize::MAX,
            visible_pages.len() == k - start_page,
            forall|i: int| 0 <= i < visible_pages.len() ==> visible_pages@[i] == start_page + i,
        decreases end_page + 1 - k,
    {
        visible_pages.push(k);
        k = k + 1;
    }
    assert(visible_pages@ =~= page_range(start_page as nat, end_page as nat));
    Pagination { total_pages, current_page, offset, visible_pages }
}

/// The current page is always one of the page links shown, and the page's
/// first row exists whenever there is any row.
pub proof fn law_current_page_shown(total_records: i64, page_size: usize, requested: Option<usize>)
    requires
        page_size > 0,
    ensures
        ({
            let n = record_count(total_records);
            let total = page_count(n, page_size as nat);
            let cur = chosen_page(requested, total);
            &&& 1 <= cur <= total
            &&& page_range(window_start(cur), window_end(cur, total)).contains(cur as usize)
            &&& (n > 0 ==> (cur - 1) * page_size < n)
        }),
{
    let n = record_count(total_records);
    let total = page_count(n, page_size as nat);
    let cur = chosen_page(requested, total);
    let s = window_start(cur);
    let rng = page_range(s, window_end(cur, total));
    assert(rng[(cur - s) as int] == cur as usize);
    lemma_offset_below(n, page_size as nat, cur);
}

/// First and last row numbers shown by an analytics page (zero and zero when
/// there are no rows).
pub open spec fn shown_row_span(total: i64, offset: usize, page_size: usize) -> (nat, nat) {
    if total == 0 {
        (0, 0)
    } else {
        let end = offset + page_size;
        let t = record_count(total);
        (offset as nat + 1, if t < end { t } else { end as nat })
    }
}

pub fn shown_rows(total: i64, offset: usize, page_size: usize) -> (r: (usize, usize))
    requires
        page_size > 0,
        offset + page_size <= usize::MAX,
    ensures
        (r.0 as nat, r.1 as nat) == shown_row_span(total, offset, page_size),
{
    if total == 0 {
        (0, 0)
    } else {
        let end = offset + page_size;
        let t = total as usize;
        (offset + 1, if t < end { t } else { end })
    }
}

} // verus!
