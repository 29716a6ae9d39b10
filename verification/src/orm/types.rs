//! Pagination of list queries.

use vstd::prelude::*;

verus! {

pub const DEFAULT_PAGE: u64 = 1;

pub const DEFAULT_PER_PAGE: u64 = 20;

pub const MAX_PER_PAGE: u64 = 100;

/// A page request: a 1-based page number and a page size, as the client sent
/// them; `page()` and `per_page()` give the values clamped to what is served.
#[derive(Debug, Clone, Copy, PartialEq, Eq)]
pub struct Page {
    pub page: u64,
    pub per_page: u64,
}

/// The page number actually served: at least 1.
pub open spec fn served_page(page: u64) -> u64 {
    if page < 1 { 1 } else { page }
}

/// The page size actually served: between 1 and `MAX_PER_PAGE`.
pub open spec fn served_per_page(per_page: u64) -> u64 {
    if per_page < 1 { 1 } else if per_page > MAX_PER_PAGE { MAX_PER_PAGE } else { per_page }
}

/// The number of pages of `size` that `total` items fill, rounding up.
pub open spec fn ceil_div(total: nat, size: nat) -> nat
    recommends
        size > 0,
{
    ((total + size - 1) / size as int) as nat
}

/// The number of pages reported for `total` items: at least one.
pub open spec fn page_count(total: nat, size: nat) -> nat {
    if ceil_div(total, size) < 1 { 1 } else { ceil_div(total, size) }
}

impl Default for Page {
    fn default() -> (p: Page)
        ensures
            p.page == DEFAULT_PAGE,
            p.per_page == DEFAULT_PER_PAGE,
    {
        Page { page: DEFAULT_PAGE, per_page: DEFAULT_PER_PAGE }
    }
}

impl Page {
    /// The 1-based page number, clamped to at least 1.
    pub fn page(&self) -> (n: u64)
        ensures
            n == served_page(self.page),
    {
        if self.page < 1 { 1 } else { self.page }
    }

    /// The page size, clamped to `1..=MAX_PER_PAGE`.
    pub fn per_page(&self) -> (n: u64)
        ensures
            n == served_per_page(self.per_page),
    {
        if self.per_page < 1 {
            1
        } else if self.per_page > MAX_PER_PAGE {
            MAX_PER_PAGE
        } else {
            self.per_page
        }
    }

    /// The 0-based index of the served page.
    pub fn zero_indexed(&self) -> (n: u64)
        ensures
            n == served_page(self.page) - 1,
    {
        self.page() - 1
    }
}

/// One page of a list, with the numbers that locate it.
#[derive(Debug)]
pub struct Paginated<T> {
    pub items: Vec<T>,
    pub total: u64,
    pub page: u64,
    pub per_page: u64,
    pub total_pages: u64,
}

impl<T> Paginated<T> {
    /// Wraps one fetched page of `total` items, with the page numbers that
    /// `p` is served as and the page count, which is at least one.
    pub fn new(items: Vec<T>, total: u64, p: &Page) -> (r: Paginated<T>)
        ensures
            r.items == items,
            r.total == total,
            r.page == served_page(p.page),
            r.per_page == served_per_page(p.per_page),
            r.total_pages == page_count(total as nat, served_per_page(p.per_page) as nat),
    {
        let per_page = p.per_page();
        let q: u64 = total / per_page;
        let rounded: u64 = if total % per_page != 0 {
            assert(q < u64::MAX) by (nonlinear_arith)
                requires
                    per_page >= 1,
                    total % per_page != 0,
                    q == total / per_page,
            {
                assert(per_page >= 2);
                assert(q * per_page <= total);
            }
            q + 1
        } else {
            q
        };
        let total_pages: u64 = if rounded < 1 { 1 } else { rounded };
        proof {
            lemma_ceil_div(total as nat, per_page as nat);
        }
        Paginated { items, total, page: p.page(), per_page, total_pages }
    }
}

proof fn lemma_ceil_div(total: nat, size: nat)
    requires
        size > 0,
    ensures
        ceil_div(total, size) == total / size + (if total % size != 0 { 1nat } else { 0nat }),
{
    let q = total / size;
    let r = total % size;
    assert(total == q * size + r && 0 <= r < size) by (nonlinear_arith)
        requires
            size > 0,
            q == total / size,
            r == total % size,
    ;
    if r == 0 {
        assert((total + size - 1) / size as int == q) by (nonlinear_arith)
            requires
                size > 0,
                total == q * size,
                q >= 0,
        ;
    } else {
        assert((total + size - 1) / size as int == q + 1) by (nonlinear_arith)
            requires
                size > 0,
                total == q * size + r,
                0 < r < size,
                q >= 0,
        ;
    }
}

pub fn default_page() -> (n: u64)
    ensures
        n == DEFAULT_PAGE,
{
    DEFAULT_PAGE
}

pub fn default_per_page() -> (n: u64)
    ensures
        n == DEFAULT_PER_PAGE,
{
    DEFAULT_PER_PAGE
}

/// Every served page request is in range: the page number is at least 1,
/// the size is between 1 and `MAX_PER_PAGE`, and the 0-based index is one
/// less than the page number.
pub proof fn law_page_in_range(p: Page)
    ensures
        served_page(p.page) >= 1,
        1 <= served_per_page(p.per_page) <= MAX_PER_PAGE,
        p.page >= 1 ==> served_page(p.page) == p.page,
        1 <= p.per_page <= MAX_PER_PAGE ==> served_per_page(p.per_page) == p.per_page,
{
}

/// The reported pages hold every item and no page is wholly empty: there is
/// at least one page, the pages together fit `total` items, when there are
/// items the last page holds at least one, and with no items there is
/// exactly one page.
pub proof fn law_pages_cover_total(total: nat, size: nat)
    requires
        size > 0,
    ensures
        page_count(total, size) >= 1,
        total <= page_count(total, size) * size,
        total > 0 ==> (page_count(total, size) - 1) * size < total,
        total == 0 ==> page_count(total, size) == 1,
{
    lemma_ceil_div(total, size);
    let q = total / size;
    let r = total % size;
    assert(total == q * size + r && 0 <= r < size) by (nonlinear_arith)
        requires
            size > 0,
            q == total / size,
            r == total % size,
    ;
    let c = page_count(total, size);
    if r == 0 {
        if q == 0 {
            assert(total == 0) by (nonlinear_arith)
                requires
                    total == q * size,
                    q == 0,
            ;
        } else {
            assert(c == q);
            assert(total <= c * size);
            assert((c - 1) * size < total) by (nonlinear_arith)
                requires
                    c == q,
                    q >= 1,
                    size > 0,
                    total == q * size,
            ;
        }
    } else {
        assert(c == q + 1);
        assert(total <= c * size) by (nonlinear_arith)
            requires
                c == q + 1,
                total == q * size + r,
                r < size,
        ;
        assert((c - 1) * size < total) by (nonlinear_arith)
            requires
                c == q + 1,
                total == q * size + r,
                r > 0,
        ;
    }
}

} // verus!
