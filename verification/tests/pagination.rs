use ui_core::pagination::{
    click_next, click_previous, page_window, PageItem, Pagination, PaginationLink, PaginationProps,
    PaginationRange, PaginationState, DEFAULT_LINKS_PER_SIDE,
};

fn links(view_left: &[PageItem], view_right: &[PageItem]) -> usize {
    view_left
        .iter()
        .chain(view_right.iter())
        .filter(|c| matches!(c, PageItem::Link(_)))
        .count()
}

fn props(route: &str, total_pages: u32, links_per_side: u32) -> PaginationProps {
    PaginationProps { route: route.to_string(), total_pages, links_per_side }
}

#[test]
fn store_reads_page_one_for_unknown_route() {
    let state = PaginationState::new();
    assert_eq!(state.current_page("posts"), 1);
}

#[test]
fn store_keeps_pages_per_route() {
    let mut state = PaginationState::new();
    state.set_current_page("posts", 7);
    state.set_current_page("users", 3);
    assert_eq!(state.current_page("posts"), 7);
    assert_eq!(state.current_page("users"), 3);
    state.set_current_page("posts", 9);
    assert_eq!(state.current_page("posts"), 9);
    assert_eq!(state.current_page("users"), 3);
    assert_eq!(state.current_page("other"), 1);
}

#[test]
fn store_lifts_page_zero_to_one() {
    let mut state = PaginationState::new();
    state.set_current_page("posts", 5);
    state.set_current_page("posts", 0);
    assert_eq!(state.current_page("posts"), 1);
}

#[test]
fn store_has_no_upper_bound() {
    let mut state = PaginationState::new();
    state.set_current_page("posts", u32::MAX);
    assert_eq!(state.current_page("posts"), u32::MAX);
}

#[test]
fn default_links_per_side_is_three() {
    let p = PaginationProps::new("posts", 10);
    assert_eq!(p.links_per_side, 3);
    assert_eq!(DEFAULT_LINKS_PER_SIDE, 3);
    assert_eq!(p.route, "posts");
    assert_eq!(p.total_pages, 10);
}

#[test]
fn window_in_the_middle() {
    let v = page_window(100, 3, 50);
    assert_eq!(v.page, 50);
    assert_eq!(v.left, vec![PageItem::Link(1), PageItem::Ellipsis, PageItem::Link(49)]);
    assert_eq!(v.right, vec![PageItem::Link(51), PageItem::Ellipsis, PageItem::Link(100)]);
    assert!(!v.prev_disabled);
    assert!(!v.next_disabled);
}

#[test]
fn window_near_the_start_takes_unused_slots() {
    let v = page_window(100, 3, 2);
    assert_eq!(v.page, 2);
    assert_eq!(v.left, vec![PageItem::Link(1)]);
    assert_eq!(
        v.right,
        vec![
            PageItem::Link(3),
            PageItem::Link(4),
            PageItem::Link(5),
            PageItem::Ellipsis,
            PageItem::Link(100)
        ]
    );
    assert!(!v.prev_disabled);
    assert!(!v.next_disabled);
}

#[test]
fn window_near_the_end_takes_unused_slots() {
    let v = page_window(100, 3, 100);
    assert_eq!(v.page, 100);
    assert_eq!(
        v.left,
        vec![
            PageItem::Link(1),
            PageItem::Ellipsis,
            PageItem::Link(96),
            PageItem::Link(97),
            PageItem::Link(98),
            PageItem::Link(99)
        ]
    );
    assert_eq!(v.right, Vec::<PageItem>::new());
    assert!(!v.prev_disabled);
    assert!(v.next_disabled);
}

#[test]
fn window_of_a_single_page() {
    let v = page_window(1, 3, 1);
    assert_eq!(v.page, 1);
    assert!(v.left.is_empty());
    assert!(v.right.is_empty());
    assert!(v.prev_disabled);
    assert!(v.next_disabled);
}

#[test]
fn window_without_links() {
    let v = page_window(10, 0, 5);
    assert_eq!(v.page, 5);
    assert!(v.left.is_empty());
    assert!(v.right.is_empty());
    assert!(!v.prev_disabled);
    assert!(!v.next_disabled);
}

#[test]
fn window_with_one_link_per_side() {
    let v = page_window(10, 1, 5);
    assert_eq!(v.left, vec![PageItem::Link(1), PageItem::Ellipsis]);
    assert_eq!(v.right, vec![PageItem::Ellipsis, PageItem::Link(10)]);
}

#[test]
fn window_clamps_the_page() {
    let v = page_window(5, 3, 9);
    assert_eq!(v.page, 5);
    assert!(v.next_disabled);
    let w = page_window(5, 3, 0);
    assert_eq!(w.page, 1);
    assert!(w.prev_disabled);
}

#[test]
fn window_shows_all_pages_when_they_fit() {
    let v = page_window(5, 3, 3);
    assert_eq!(v.left, vec![PageItem::Link(1), PageItem::Link(2)]);
    assert_eq!(v.right, vec![PageItem::Link(4), PageItem::Link(5)]);
    assert_eq!(links(&v.left, &v.right), 4);
}

#[test]
fn link_count_never_exceeds_the_bound() {
    for total in 1u32..=12 {
        for k in 0u32..=4 {
            for p in 1..=total {
                let v = page_window(total, k, p);
                let bound = std::cmp::min(total - 1, 2 * k) as usize;
                assert!(links(&v.left, &v.right) <= bound);
            }
        }
    }
}

#[test]
fn link_count_is_full_exactly_when_nothing_is_left_out() {
    for total in 1u32..=12 {
        for k in 0u32..=4 {
            for p in 1..=total {
                let v = page_window(total, k, p);
                let bound = std::cmp::min(total - 1, 2 * k) as usize;
                let cut = v.left.contains(&PageItem::Ellipsis) || v.right.contains(&PageItem::Ellipsis);
                let full = !cut || k == 0 || (k == 1 && 1 < p && p < total);
                assert_eq!(links(&v.left, &v.right) == bound, full);
            }
        }
    }
}

#[test]
fn range_on_the_left() {
    assert_eq!(
        PaginationRange(1, 9, 4, true),
        vec![PageItem::Link(1), PageItem::Ellipsis, PageItem::Link(8), PageItem::Link(9)]
    );
}

#[test]
fn range_on_the_right() {
    assert_eq!(
        PaginationRange(11, 20, 4, false),
        vec![PageItem::Link(11), PageItem::Link(12), PageItem::Ellipsis, PageItem::Link(20)]
    );
}

#[test]
fn range_that_fits() {
    assert_eq!(
        PaginationRange(3, 5, 3, false),
        vec![PageItem::Link(3), PageItem::Link(4), PageItem::Link(5)]
    );
    assert_eq!(PaginationRange(3, 2, 0, true), Vec::<PageItem>::new());
}

#[test]
fn range_at_the_top_of_the_page_numbers() {
    assert_eq!(
        PaginationRange(u32::MAX - 3, u32::MAX, 2, true),
        vec![PageItem::Link(u32::MAX - 3), PageItem::Ellipsis]
    );
}

#[test]
fn control_reads_the_store() {
    let mut state = PaginationState::new();
    let p = props("posts", 100, 3);
    state.set_current_page("posts", 50);
    let v = Pagination(&p, &state);
    assert_eq!(v.page, 50);
    assert_eq!(v.left, vec![PageItem::Link(1), PageItem::Ellipsis, PageItem::Link(49)]);
    let other = props("users", 100, 3);
    assert_eq!(Pagination(&other, &state).page, 1);
}

#[test]
fn previous_at_first_page_changes_nothing() {
    let mut state = PaginationState::new();
    let p = props("posts", 10, 3);
    click_previous(&p, &mut state);
    assert_eq!(state.current_page("posts"), 1);
    state.set_current_page("posts", 1);
    click_previous(&p, &mut state);
    assert_eq!(state.current_page("posts"), 1);
}

#[test]
fn next_at_last_page_changes_nothing() {
    let mut state = PaginationState::new();
    let p = props("posts", 10, 3);
    state.set_current_page("posts", 10);
    click_next(&p, &mut state);
    assert_eq!(state.current_page("posts"), 10);
    state.set_current_page("posts", 40);
    click_next(&p, &mut state);
    assert_eq!(state.current_page("posts"), 40);
}

#[test]
fn previous_and_next_move_by_one() {
    let mut state = PaginationState::new();
    let p = props("posts", 10, 3);
    click_next(&p, &mut state);
    assert_eq!(state.current_page("posts"), 2);
    click_next(&p, &mut state);
    assert_eq!(state.current_page("posts"), 3);
    click_previous(&p, &mut state);
    assert_eq!(state.current_page("posts"), 2);
    state.set_current_page("posts", 40);
    click_previous(&p, &mut state);
    assert_eq!(state.current_page("posts"), 9);
}

#[test]
fn single_page_clicks_are_inert() {
    let mut state = PaginationState::new();
    let p = props("posts", 1, 3);
    click_previous(&p, &mut state);
    click_next(&p, &mut state);
    assert_eq!(state.current_page("posts"), 1);
    let v = Pagination(&p, &state);
    assert!(v.prev_disabled && v.next_disabled);
}

#[test]
fn link_click_sets_the_page() {
    let mut state = PaginationState::new();
    let p = props("posts", 10, 3);
    PaginationLink(&p, &mut state, 6);
    assert_eq!(state.current_page("posts"), 6);
    PaginationLink(&p, &mut state, 0);
    assert_eq!(state.current_page("posts"), 1);
}
