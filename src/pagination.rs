//! Turns a 1-based page number into the offset of its first item and a
//! "more pages follow" flag, under a fixed page size and page ceiling.
use vstd::prelude::*;

verus! {

/// Number of items on every page.
pub const ITEMS_PER_PAGE: usize = 12;

/// Pages past this one are never announced.
pub const MAX_PAGES: u16 = 10;

/// The page that a request means: absent, or 0, is the first page.
pub open spec fn page_number(page: Option<u16>) -> nat {
    match page {
        Some(k) if k >= 1 => k as nat,
        _ => 1,
    }
}

/// Zero-based index of the first item on the requested page.
pub open spec fn page_offset(page: Option<u16>) -> nat {
    ((page_number(page) - 1) * ITEMS_PER_PAGE) as nat
}

/// Whether the requested page lies under the page ceiling.
pub open spec fn page_has_next(page: Option<u16>) -> bool {
    page_number(page) < MAX_PAGES
}

/// Offset of the page's first item, and whether a further page is announced.
pub fn calculate_pagination(page: Option<u16>) -> (r: (usize, bool))
    ensures
        r.0 == page_offset(page),
        r.1 == page_has_next(page),
{
    let current_page: u16 = match page {
        Some(k) if k >= 1 => k,
        _ => 1,
    };
    assert((current_page as usize - 1) * ITEMS_PER_PAGE <= 65534 * 12) by (nonlinear_arith)
        requires
            1 <= current_page <= 65535,
    ;
    let offset = (current_page as usize - 1) * ITEMS_PER_PAGE;
    let has_next_page = current_page < MAX_PAGES;
    (offset, has_next_page)
}

/// The first page starts at offset 0, whether it is asked for by number or
/// by leaving the page out.
pub proof fn lemma_first_page_offset()
    ensures
        page_offset(None) == 0,
        page_offset(Some(1)) == 0,
{
}

/// Page `k` starts at `(k - 1) * 12`, and page `k + 1` starts exactly one
/// page size later, so the last item of page `k` precedes the first of page
/// `k + 1`.
pub proof fn lemma_consecutive_offsets(k: u16)
    requires
        1 <= k < u16::MAX,
    ensures
        page_offset(Some(k)) == (k - 1) * 12,
        page_offset(Some((k + 1) as u16)) == page_offset(Some(k)) + 12,
{
}

/// A further page is announced exactly for pages below 10; a missing page or
/// page 0 counts as page 1 and so announces one.
pub proof fn lemma_has_next_ceiling(page: Option<u16>)
    ensures
        page_has_next(page) <==> page_number(page) < 10,
        (page is None || page == Some(0u16)) ==> page_has_next(page),
        (page matches Some(k) && k >= 10) ==> !page_has_next(page),
        (page matches Some(k) && 1 <= k < 10) ==> page_has_next(page),
{
}

/// Pagination depends on the requested page alone: equal requests give
/// equal results.
pub proof fn lemma_pagination_deterministic(p: Option<u16>, q: Option<u16>)
    requires
        p == q,
    ensures
        page_offset(p) == page_offset(q),
        page_has_next(p) == page_has_next(q),
{
}

} // verus!
