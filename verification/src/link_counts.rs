//! How many numbered links the pagination window holds.
use crate::pagination::{
    left_slots, min_of, monus, range_items, right_slots, span, PageItem,
};
use vstd::prelude::*;

verus! {

/// Number of numbered links among `cells`; ellipses do not count.
pub open spec fn link_count(cells: Seq<PageItem>) -> nat
    decreases cells.len(),
{
    if cells.len() == 0 {
        0
    } else {
        link_count(cells.drop_last()) + if cells.last() is Link {
            1nat
        } else {
            0nat
        }
    }
}

/// Number of numbered links on both sides of page `p`, the current page left out.
pub open spec fn window_link_count(total: int, k: int, p: int) -> nat {
    link_count(range_items(1, p - 1, left_slots(total, k, p), true)) + link_count(
        range_items(p + 1, total, right_slots(total, k, p), false),
    )
}

/// Links shown for a range of `n` pages under a grant of `max` slots.
pub open spec fn side_count(n: int, max: int) -> int {
    if n <= max {
        n
    } else if max == 0 {
        0
    } else {
        1 + monus(max, 2)
    }
}

/// Neither side of page `p` has to leave pages out.
pub open spec fn both_sides_fit(total: int, k: int, p: int) -> bool {
    p - 1 <= left_slots(total, k, p) && total - p <= right_slots(total, k, p)
}

/// Counting is additive over concatenation.
pub proof fn lemma_link_count_concat(a: Seq<PageItem>, b: Seq<PageItem>)
    ensures
        link_count(a + b) == link_count(a) + link_count(b),
    decreases b.len(),
{
    if b.len() == 0 {
        assert(a + b =~= a);
    } else {
        lemma_link_count_concat(a, b.drop_last());
        assert((a + b).drop_last() =~= a + b.drop_last());
        assert((a + b).last() == b.last());
    }
}

/// A span of pages counts one link per page.
pub proof fn lemma_link_count_span(lo: int, hi: int)
    requires
        lo <= hi + 1,
    ensures
        link_count(span(lo, hi)) == hi + 1 - lo,
    decreases hi + 1 - lo,
{
    if hi + 1 - lo > 0 {
        lemma_link_count_span(lo, hi - 1);
        assert(span(lo, hi).drop_last() =~= span(lo, hi - 1));
    }
}

/// The links of one side are as many as `side_count` says.
pub proof fn lemma_range_link_count(lo: int, hi: int, max: int, left: bool)
    requires
        lo <= hi + 1,
        0 <= max,
    ensures
        link_count(range_items(lo, hi, max, left)) == side_count(hi + 1 - lo, max),
{
    let near = monus(max, 2);
    let pair = if left {
        seq![PageItem::Link(lo as u32), PageItem::Ellipsis]
    } else {
        seq![PageItem::Ellipsis, PageItem::Link(hi as u32)]
    };
    assert(link_count(pair) == 1) by {
        assert(pair.drop_last().drop_last() =~= Seq::<PageItem>::empty());
        assert(link_count(pair.drop_last().drop_last()) == 0);
        assert(pair.drop_last().len() == 1);
        assert(link_count(pair.drop_last()) == link_count(pair.drop_last().drop_last()) + if pair.drop_last().last() is Link {
            1nat
        } else {
            0nat
        });
    }
    if hi + 1 - lo <= max {
        lemma_link_count_span(lo, hi);
    } else if max == 0 {
    } else if left {
        lemma_link_count_span(hi - near + 1, hi);
        lemma_link_count_concat(pair, span(hi - near + 1, hi));
    } else {
        lemma_link_count_span(lo, lo + near - 1);
        lemma_link_count_concat(span(lo, lo + near - 1), pair);
    }
}

/// The window never holds more numbered links than there are other pages, nor
/// more than twice the links wanted per side.
pub proof fn lemma_link_count_bounded(total: int, k: int, p: int)
    requires
        1 <= p <= total,
        0 <= k,
    ensures
        window_link_count(total, k, p) <= min_of(total - 1, 2 * k),
        left_slots(total, k, p) + right_slots(total, k, p) <= 2 * k,
{
    lemma_range_link_count(1, p - 1, left_slots(total, k, p), true);
    lemma_range_link_count(p + 1, total, right_slots(total, k, p), false);
}

/// The window holds exactly `min(total - 1, 2k)` numbered links if and only if
/// no page has to be left out on either side, or no link is wanted at all, or one
/// link is wanted per side and the current page is neither the first nor the
/// last. On every other input an ellipsis takes the place of a link and the
/// count is smaller.
pub proof fn lemma_link_count_symmetric(total: int, k: int, p: int)
    requires
        1 <= p <= total,
        0 <= k,
    ensures
        window_link_count(total, k, p) == min_of(total - 1, 2 * k) <==> (both_sides_fit(total, k, p)
            || k == 0 || (k == 1 && 1 < p < total)),
{
    lemma_range_link_count(1, p - 1, left_slots(total, k, p), true);
    lemma_range_link_count(p + 1, total, right_slots(total, k, p), false);
}

/// With every page in view the window links each page but the current one.
pub proof fn lemma_link_count_when_fitting(total: int, k: int, p: int)
    requires
        1 <= p <= total,
        0 <= k,
        both_sides_fit(total, k, p),
    ensures
        window_link_count(total, k, p) == total - 1,
        total - 1 <= 2 * k,
{
    lemma_range_link_count(1, p - 1, left_slots(total, k, p), true);
    lemma_range_link_count(p + 1, total, right_slots(total, k, p), false);
}

} // verus!
