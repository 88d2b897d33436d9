//! Paginated view state and the window of page links drawn around the current page.
//!
//! The store maps a route key to a page index that is never below 1; a route that
//! was never written reads as page 1. The window functions decide which numbered
//! links and ellipses appear on either side of the current page and whether the
//! previous and next controls are disabled.
use vstd::hash_map::StringHashMap;
use vstd::prelude::*;

verus! {

/// Route key to current page; an absent key means page 1.
pub struct PaginationState {
    pages: StringHashMap<u32>,
}

/// The page a store content `m` reports for `route`.
pub open spec fn page_in(m: Map<Seq<char>, u32>, route: Seq<char>) -> u32 {
    if m.dom().contains(route) {
        m[route]
    } else {
        1
    }
}

/// The page that a write of `page` stores: zero is lifted to 1.
pub open spec fn stored_page(page: u32) -> u32 {
    if page == 0 {
        1
    } else {
        page
    }
}

impl PaginationState {
    /// The store as a map from route to page.
    pub closed spec fn view(&self) -> Map<Seq<char>, u32> {
        self.pages@
    }

    /// Every remembered page is at least 1.
    pub closed spec fn wf(&self) -> bool {
        forall|k: Seq<char>| self.pages@.dom().contains(k) ==> #[trigger] self.pages@[k] >= 1
    }

    /// An empty store: every route is on page 1.
    pub fn new() -> (s: Self)
        ensures
            s.wf(),
            s@ == Map::<Seq<char>, u32>::empty(),
    {
        PaginationState { pages: StringHashMap::new() }
    }

    /// Every page the store holds is at least 1.
    pub proof fn lemma_pages_positive(&self, route: Seq<char>)
        requires
            self.wf(),
        ensures
            page_in(self@, route) >= 1,
    {
    }

    /// The current page of `route`, 1 where none was set.
    pub fn current_page(&self, route: &str) -> (p: u32)
        requires
            self.wf(),
        ensures
            p == page_in(self@, route@),
            p >= 1,
    {
        match self.pages.get(route) {
            Some(page) => *page,
            None => 1,
        }
    }

    /// Sets the current page of `route`; a page of 0 is stored as 1. No upper bound
    /// applies here: the widget clamps against its own page count.
    pub fn set_current_page(&mut self, route: &str, page: u32)
        requires
            old(self).wf(),
        ensures
            final(self).wf(),
            final(self)@ == old(self)@.insert(route@, stored_page(page)),
    {
        let page = if page == 0 {
            1
        } else {
            page
        };
        self.pages.insert(route.to_owned(), page);
    }
}

/// One cell of the link list beside the current page.
#[derive(Clone, Copy, Debug, PartialEq, Eq, Structural)]
pub enum PageItem {
    /// A numbered link to a page.
    Link(u32),
    /// A gap that stands for the pages left out.
    Ellipsis,
}

/// What the pagination control is configured with.
pub struct PaginationProps {
    /// Route key under which the store keeps the current page.
    pub route: String,
    /// Number of pages, at least 1.
    pub total_pages: u32,
    /// Links wanted on each side of the current page.
    pub links_per_side: u32,
}

/// Links shown on each side of the current page where nothing else is asked for.
pub const DEFAULT_LINKS_PER_SIDE: u32 = 3;

/// What the control shows for one current page.
#[derive(Debug)]
pub struct PaginationView {
    /// The current page, within `1..=total_pages`.
    pub page: u32,
    /// The previous control is inert.
    pub prev_disabled: bool,
    /// The next control is inert.
    pub next_disabled: bool,
    /// Cells left of the current page, in reading order.
    pub left: Vec<PageItem>,
    /// Cells right of the current page, in reading order.
    pub right: Vec<PageItem>,
}

pub open spec fn min_of(a: int, b: int) -> int {
    if a <= b {
        a
    } else {
        b
    }
}

/// `a - b`, or 0 where that would be negative.
pub open spec fn monus(a: int, b: int) -> int {
    if a >= b {
        a - b
    } else {
        0
    }
}

/// `p` brought into `1..=total`.
pub open spec fn clamp_page(p: int, total: int) -> int {
    if p < 1 {
        1
    } else if p > total {
        total
    } else {
        p
    }
}

/// Slots granted to the right side: its own share plus what the left cannot use.
pub open spec fn right_slots(total: int, k: int, p: int) -> int {
    min_of(k, total - p) + monus(k, min_of(k, p - 1))
}

/// Slots granted to the left side: its own share plus what the right leaves over.
pub open spec fn left_slots(total: int, k: int, p: int) -> int {
    min_of(k, p - 1) + monus(k, right_slots(total, k, p))
}

/// Links to the pages `lo..=hi` in rising order; empty where `hi < lo`.
pub open spec fn span(lo: int, hi: int) -> Seq<PageItem> {
    Seq::new(monus(hi + 1, lo) as nat, |i: int| PageItem::Link((lo + i) as u32))
}

/// The cells shown for the pages `lo..=hi` when `max` slots are granted.
///
/// A range that fits is shown whole. With no slot nothing is shown. Otherwise the
/// far end of the range and an ellipsis take two slots, and the `max - 2` pages
/// nearest the current page take the rest; `left` says on which side of the
/// current page the range lies.
pub open spec fn range_items(lo: int, hi: int, max: int, left: bool) -> Seq<PageItem> {
    let near = monus(max, 2);
    if monus(hi + 1, lo) <= max {
        span(lo, hi)
    } else if max == 0 {
        Seq::empty()
    } else if left {
        seq![PageItem::Link(lo as u32), PageItem::Ellipsis] + span(hi - near + 1, hi)
    } else {
        span(lo, lo + near - 1) + seq![PageItem::Ellipsis, PageItem::Link(hi as u32)]
    }
}

fn push_span(out: &mut Vec<PageItem>, lo: u32, hi: u32)
    requires
        lo <= hi + 1,
    ensures
        final(out)@ == old(out)@ + span(lo as int, hi as int),
{
    let ghost base = out@;
    let mut next: u64 = lo as u64;
    let end: u64 = hi as u64;
    while next <= end
        invariant
            lo <= next <= end + 1,
            end == hi,
            out@ == base + span(lo as int, next as int - 1),
        decreases end + 1 - next,
    {
        out.push(PageItem::Link(next as u32));
        proof {
            assert(out@ =~= base + span(lo as int, next as int));
        }
        next += 1;
    }
    proof {
        assert(base + span(lo as int, lo as int - 1) =~= base);
    }
}

/// Lists the cells for the pages `lo..=hi` under a grant of `max` slots.
#[allow(non_snake_case)]
pub fn PaginationRange(lo: u32, hi: u32, max: u64, left: bool) -> (cells: Vec<PageItem>)
    requires
        lo <= hi + 1,
    ensures
        cells@ == range_items(lo as int, hi as int, max as int, left),
{
    let count: u64 = hi as u64 + 1 - lo as u64;
    let mut cells: Vec<PageItem> = Vec::new();
    if count <= max {
        push_span(&mut cells, lo, hi);
        proof {
            assert(cells@ =~= span(lo as int, hi as int));
        }
    } else if max == 0 {
    } else {
        let near: u64 = if max >= 2 {
            max - 2
        } else {
            0
        };
        if left {
            cells.push(PageItem::Link(lo));
            cells.push(PageItem::Ellipsis);
            if near > 0 {
                let from: u64 = hi as u64 - near + 1;
                push_span(&mut cells, from as u32, hi);
            }
            proof {
                assert(near == 0 ==> span(hi as int + 1, hi as int) =~= Seq::<PageItem>::empty());
                assert(cells@ =~= seq![PageItem::Link(lo), PageItem::Ellipsis] + span(
                    hi as int - near as int + 1,
                    hi as int,
                ));
            }
        } else {
            if near > 0 {
                let to: u64 = lo as u64 + near - 1;
                push_span(&mut cells, lo, to as u32);
            }
            let ghost front = cells@;
            cells.push(PageItem::Ellipsis);
            cells.push(PageItem::Link(hi));
            proof {
                assert(front =~= span(lo as int, lo as int + near as int - 1));
                assert(cells@ =~= front + seq![PageItem::Ellipsis, PageItem::Link(hi)]);
            }
        }
    }
    cells
}

/// The window for `page` among `total_pages` pages with `links_per_side` links
/// wanted on each side. `page` is first brought into `1..=total_pages`.
pub fn page_window(total_pages: u32, links_per_side: u32, page: u32) -> (v: PaginationView)
    requires
        total_pages >= 1,
    ensures
        v.page == clamp_page(page as int, total_pages as int),
        v.prev_disabled == (v.page == 1),
        v.next_disabled == (v.page == total_pages),
        v.left@ == range_items(
            1,
            v.page - 1,
            left_slots(total_pages as int, links_per_side as int, v.page as int),
            true,
        ),
        v.right@ == range_items(
            v.page + 1,
            total_pages as int,
            right_slots(total_pages as int, links_per_side as int, v.page as int),
            false,
        ),
{
    let p: u32 = if page < 1 {
        1
    } else if page > total_pages {
        total_pages
    } else {
        page
    };
    let k: u64 = links_per_side as u64;
    let pages_left: u64 = (p - 1) as u64;
    let pages_right: u64 = (total_pages - p) as u64;
    let own_left: u64 = if k <= pages_left {
        k
    } else {
        pages_left
    };
    let own_right: u64 = if k <= pages_right {
        k
    } else {
        pages_right
    };
    let right: u64 = own_right + (k - own_left);
    let left: u64 = if k >= right {
        own_left + (k - right)
    } else {
        own_left
    };
    let left_cells = PaginationRange(1, p - 1, left, true);
    let right_cells = if p == total_pages {
        Vec::new()
    } else {
        PaginationRange(p + 1, total_pages, right, false)
    };
    proof {
        if p == total_pages {
            assert(right_cells@ =~= range_items(p + 1, total_pages as int, right as int, false));
        }
    }
    PaginationView {
        page: p,
        prev_disabled: p == 1,
        next_disabled: p == total_pages,
        left: left_cells,
        right: right_cells,
    }
}

impl PaginationProps {
    /// Props for `route` with the default number of links per side.
    pub fn new(route: &str, total_pages: u32) -> (props: Self)
        ensures
            props.route@ == route@,
            props.total_pages == total_pages,
            props.links_per_side == DEFAULT_LINKS_PER_SIDE,
    {
        PaginationProps { route: route.to_owned(), total_pages, links_per_side: DEFAULT_LINKS_PER_SIDE }
    }
}

/// The current page that the control shows: the stored page within `1..=total`.
pub open spec fn shown_page(props: &PaginationProps, m: Map<Seq<char>, u32>) -> int {
    clamp_page(page_in(m, props.route@) as int, props.total_pages as int)
}

/// What the control renders for the page that `state` holds for the props' route.
#[allow(non_snake_case)]
pub fn Pagination(props: &PaginationProps, state: &PaginationState) -> (v: PaginationView)
    requires
        state.wf(),
        props.total_pages >= 1,
    ensures
        v.page == shown_page(props, state@),
        v.prev_disabled == (v.page == 1),
        v.next_disabled == (v.page == props.total_pages),
        v.left@ == range_items(
            1,
            v.page - 1,
            left_slots(props.total_pages as int, props.links_per_side as int, v.page as int),
            true,
        ),
        v.right@ == range_items(
            v.page + 1,
            props.total_pages as int,
            right_slots(props.total_pages as int, props.links_per_side as int, v.page as int),
            false,
        ),
{
    let page = state.current_page(props.route.as_str());
    page_window(props.total_pages, props.links_per_side, page)
}

/// A click on the numbered link `page`: the store takes that page.
#[allow(non_snake_case)]
pub fn PaginationLink(props: &PaginationProps, state: &mut PaginationState, page: u32)
    requires
        old(state).wf(),
    ensures
        final(state).wf(),
        final(state)@ == old(state)@.insert(props.route@, stored_page(page)),
{
    state.set_current_page(props.route.as_str(), page);
}

/// A click on the previous control: one page back, and nothing on page 1.
pub fn click_previous(props: &PaginationProps, state: &mut PaginationState)
    requires
        old(state).wf(),
        props.total_pages >= 1,
    ensures
        final(state).wf(),
        shown_page(props, old(state)@) == 1 ==> final(state)@ == old(state)@,
        shown_page(props, old(state)@) > 1 ==> final(state)@ == old(state)@.insert(
            props.route@,
            (shown_page(props, old(state)@) - 1) as u32,
        ),
{
    let v = Pagination(props, state);
    if v.page > 1 {
        state.set_current_page(props.route.as_str(), v.page - 1);
    }
}

/// A click on the next control: one page on, and nothing on the last page.
pub fn click_next(props: &PaginationProps, state: &mut PaginationState)
    requires
        old(state).wf(),
        props.total_pages >= 1,
    ensures
        final(state).wf(),
        shown_page(props, old(state)@) == props.total_pages ==> final(state)@ == old(state)@,
        shown_page(props, old(state)@) < props.total_pages ==> final(state)@ == old(state)@.insert(
            props.route@,
            (shown_page(props, old(state)@) + 1) as u32,
        ),
{
    let v = Pagination(props, state);
    if v.page < props.total_pages {
        state.set_current_page(props.route.as_str(), v.page + 1);
    }
}

} // verus!
