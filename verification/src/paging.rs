use vstd::prelude::*;

use crate::text::{trim, trimmed};

verus! {

/// The page asked for, the first page when none is given.
pub fn page_or_default(page: Option<u32>) -> (r: u32)
    ensures
        r == match page {
            Some(p) => p,
            None => 1u32,
        },
{
    page.unwrap_or(1)
}

/// The page size asked for, twenty when none is given.
pub fn per_page_or_default(per_page: Option<u32>) -> (r: u32)
    ensures
        r == match per_page {
            Some(p) => p,
            None => 20u32,
        },
{
    per_page.unwrap_or(20)
}

/// The number of rows to skip for a page; page 0 counts as page 1.
pub open spec fn offset_of(page: u32, per_page: u32) -> int {
    (if page == 0 { 0 } else { page - 1 }) * per_page
}

/// The row offset of a page (`page.saturating_sub(1) * per_page`).
pub fn page_offset(page: u32, per_page: u32) -> (r: i64)
    requires
        offset_of(page, per_page) <= u32::MAX,
    ensures
        r == offset_of(page, per_page),
{
    let skipped = page.saturating_sub(1);
    (skipped * per_page) as i64
}

/// Whether the row offset of a page fits the 32 bits it is computed in.
pub fn offset_of_fits(page: u32, per_page: u32) -> (r: bool)
    ensures
        r == (offset_of(page, per_page) <= u32::MAX),
{
    let skipped: u64 = if page == 0 { 0 } else { (page - 1) as u64 };
    let size: u64 = per_page as u64;
    assert(skipped * size <= 0xffff_ffff * 0xffff_ffff) by (nonlinear_arith)
        requires skipped <= 0xffff_ffff, size <= 0xffff_ffff;
    skipped * size <= 0xffff_ffff
}

/// The `ILIKE` pattern for a search text: the trimmed text between `%`
/// signs, or no filter when the text is absent or blank.
pub fn search_pattern(search: &Option<String>) -> (r: Option<String>)
    ensures
        match search {
            None => r is None,
            Some(s) => if trimmed(s@).len() == 0 {
                r is None
            } else {
                r matches Some(p) && p@ == "%"@ + trimmed(s@) + "%"@
            },
        },
{
    match search {
        None => None,
        Some(s) => {
            let t = trim(s.as_str());
            if t.unicode_len() == 0 {
                None
            } else {
                let mut p = String::from_str("%");
                p.append(t);
                p.append("%");
                Some(p)
            }
        },
    }
}

/// The total a paged query reports: the count carried by its first row, zero
/// when there is no row or the row carries none.
pub fn page_total(counts: &[Option<i64>]) -> (r: i64)
    ensures
        r == (if counts@.len() == 0 {
            0
        } else {
            match counts@[0] {
                Some(c) => c,
                None => 0i64,
            }
        }),
{
    if counts.len() == 0 {
        0
    } else {
        match counts[0] {
            Some(c) => c,
            None => 0,
        }
    }
}

/// The largest page a listing serves.
pub const MAX_PER_PAGE: u32 = 100;

/// A page size kept between 1 and `MAX_PER_PAGE`.
pub open spec fn capped(per_page: u32) -> u32 {
    if per_page == 0 {
        1
    } else if per_page > MAX_PER_PAGE {
        MAX_PER_PAGE
    } else {
        per_page
    }
}

/// The page size a listing serves for the size asked for.
pub fn per_page_capped(per_page: u32) -> (r: u32)
    ensures
        r == capped(per_page),
        1 <= r <= MAX_PER_PAGE,
{
    if per_page == 0 {
        1
    } else if per_page > MAX_PER_PAGE {
        MAX_PER_PAGE
    } else {
        per_page
    }
}

/// The number of pages of size `per_page` that `total` rows fill.
pub open spec fn pages_for(total: int, per_page: int) -> int {
    if total <= 0 {
        0
    } else {
        (total + per_page - 1) / per_page
    }
}

/// How many pages of the given size the rows fill, the last one possibly
/// partly.
pub fn page_count(total: i64, per_page: u32) -> (r: i64)
    requires
        per_page > 0,
    ensures
        r == pages_for(total as int, per_page as int),
        total > 0 ==> (r - 1) * per_page < total <= r * per_page,
{
    if total <= 0 {
        0
    } else {
        let n = per_page as i64;
        let q = total / n;
        assert(total % n != 0 ==> q < i64::MAX) by (nonlinear_arith)
            requires n > 0, q == total / n, total > 0;
        let pages = if total % n == 0 { q } else { q + 1 };
        proof {
            let m = total % n;
            assert(total == q * n + m) by (nonlinear_arith)
                requires n > 0, q == total / n, m == total % n;
            assert((total + n - 1) / (n as int) == pages && (pages - 1) * n < total <= pages * n) by (nonlinear_arith)
                requires n > 0, total > 0, total == q * n + m, 0 <= m < n,
                    m == 0 ==> pages == q, m != 0 ==> pages == q + 1;
        }
        pages
    }
}

/// Page `p` of size `n` starts right after the rows of the pages before it.
pub proof fn law_pages_follow_each_other(p: u32, n: u32)
    requires
        1 <= p < u32::MAX,
    ensures
        offset_of((p + 1) as u32, n) == offset_of(p, n) + n,
{
    assert((p as int) * (n as int) == (p as int - 1) * (n as int) + n) by (nonlinear_arith);
}

/// A listing serves the page size asked for whenever it lies between 1 and
/// 100 rows; a larger request gets 100 rows and a request for none gets one.
pub proof fn law_page_size_served(per_page: u32)
    ensures
        1 <= per_page <= 100 ==> capped(per_page) == per_page,
        per_page > 100 ==> capped(per_page) == 100,
        per_page == 0 ==> capped(per_page) == 1,
        capped(per_page) <= per_page || per_page == 0,
{
}

/// The first page starts at the first row.
pub proof fn law_first_page_starts_at_zero(per_page: u32)
    ensures
        offset_of(1, per_page) == 0,
        offset_of(0, per_page) == 0,
{
}

} // verus!
