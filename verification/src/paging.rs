//! Pure pagination arithmetic over a filtered view: the page count, the slice
//! each page shows, and the page that keeps a selection visible, with the
//! facts that make pagination a partition of the view.
use vstd::prelude::*;
use vstd::arithmetic::div_mod::{
    lemma_div_is_ordered_by_denominator, lemma_fundamental_div_mod, lemma_mod_bound,
};
use vstd::arithmetic::mul::lemma_mul_inequality;
use vstd::math::min;

verus! {

/// How many pages a view of `total` entries fills at `ps` entries per page:
/// the ceiling of their quotient, and zero for an empty view.
pub open spec fn page_count_spec(total: int, ps: int) -> int
    recommends
        ps >= 1,
        total >= 0,
{
    if total == 0 {
        0
    } else {
        (total - 1) / ps + 1
    }
}

/// The slice of `s` that page `page` shows.
pub open spec fn page_slice<T>(s: Seq<T>, page: int, ps: int) -> Seq<T>
    recommends
        ps >= 1,
        0 <= page,
        page * ps <= s.len(),
{
    s.subrange(page * ps, min(page * ps + ps, s.len() as int))
}

/// The page on which a selected index lies, clamped into the page range;
/// page zero for an empty view. It depends only on the selection, the page
/// size, and the total, never on the page currently shown.
pub open spec fn visible_page(selected: int, ps: int, total: int) -> int
    recommends
        ps >= 1,
        0 <= selected,
{
    if total == 0 {
        0
    } else {
        min(selected / ps, page_count_spec(total, ps) - 1)
    }
}

/// The page count never exceeds the number of entries.
pub proof fn lemma_page_count_le_total(total: int, ps: int)
    requires
        total >= 0,
        ps >= 1,
    ensures
        page_count_spec(total, ps) <= total,
{
    if total > 0 {
        lemma_div_is_ordered_by_denominator(total - 1, 1, ps);
        assert((total - 1) / 1 == total - 1);
    }
}

/// The page count is exactly the ceiling of `total / ps`: every entry fits in
/// the pages, and the last page is not empty.
pub proof fn lemma_page_count_is_ceiling(total: int, ps: int)
    requires
        total >= 0,
        ps >= 1,
    ensures
        total == 0 ==> page_count_spec(total, ps) == 0,
        total > 0 ==> (page_count_spec(total, ps) - 1) * ps < total,
        total >= 0 ==> total <= page_count_spec(total, ps) * ps,
{
    if total > 0 {
        let q = (total - 1) / ps;
        let r = (total - 1) % ps;
        lemma_fundamental_div_mod(total - 1, ps);
        lemma_mod_bound(total - 1, ps);
        assert(total - 1 == ps * q + r);
        assert(q * ps == ps * q) by (nonlinear_arith);
        assert((q + 1) * ps == q * ps + ps) by (nonlinear_arith);
    }
}

/// Every page before the count starts inside the view.
pub proof fn lemma_page_start_in_range(total: int, ps: int, page: int)
    requires
        total > 0,
        ps >= 1,
        0 <= page < page_count_spec(total, ps),
    ensures
        page * ps < total,
        page * ps + ps <= page_count_spec(total, ps) * ps,
{
    lemma_page_count_is_ceiling(total, ps);
    lemma_mul_inequality(page, page_count_spec(total, ps) - 1, ps);
    assert(page * ps + ps == (page + 1) * ps) by (nonlinear_arith);
    lemma_mul_inequality(page + 1, page_count_spec(total, ps), ps);
}

/// Every valid page shows at most `ps` entries, shows at least one, and shows
/// exactly `min(ps, total - page * ps)`.
pub proof fn lemma_page_slice_len<T>(s: Seq<T>, page: int, ps: int)
    requires
        ps >= 1,
        0 <= page < page_count_spec(s.len() as int, ps),
    ensures
        page_slice(s, page, ps).len() == min(ps, s.len() - page * ps),
        0 < page_slice(s, page, ps).len() <= ps,
{
    lemma_page_start_in_range(s.len() as int, ps, page);
}

/// The number of entries shown by the first `k` pages.
pub open spec fn pages_total_len<T>(s: Seq<T>, ps: int, k: int) -> int
    decreases k,
{
    if k <= 0 {
        0
    } else {
        pages_total_len(s, ps, k - 1) + page_slice(s, k - 1, ps).len()
    }
}

proof fn lemma_pages_total_prefix<T>(s: Seq<T>, ps: int, k: int)
    requires
        ps >= 1,
        0 <= k <= page_count_spec(s.len() as int, ps),
    ensures
        pages_total_len(s, ps, k) == min(k * ps, s.len() as int),
    decreases k,
{
    let total = s.len() as int;
    if k == 0 {
        assert(0 * ps == 0) by {
            vstd::arithmetic::mul::lemma_mul_basics(ps);
        }
    } else {
        lemma_pages_total_prefix(s, ps, k - 1);
        lemma_page_start_in_range(total, ps, k - 1);
        lemma_page_slice_len(s, k - 1, ps);
        assert(k * ps == (k - 1) * ps + ps) by (nonlinear_arith);
        assert(min((k - 1) * ps, total) == (k - 1) * ps);
    }
}

/// Pagination partitions the view: over all pages, the slice lengths sum to
/// exactly the number of entries.
pub proof fn lemma_pages_partition<T>(s: Seq<T>, ps: int)
    requires
        ps >= 1,
    ensures
        pages_total_len(s, ps, page_count_spec(s.len() as int, ps)) == s.len(),
{
    let total = s.len() as int;
    let pc = page_count_spec(total, ps);
    lemma_page_count_is_ceiling(total, ps);
    lemma_pages_total_prefix(s, ps, pc);
}

} // verus!
