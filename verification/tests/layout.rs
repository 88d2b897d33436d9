use ui_core::geometry::{vec2, Align, Position, RectOffset, Size, Vec2};
use ui_core::layout::{Layout, Mode};
use ui_core::layout_tree::LayoutTree;

fn shapes(tree: &mut LayoutTree) -> Vec<(Vec2, Vec2)> {
    let n = tree.len();
    (0..n).map(|j| tree.shape(j)).collect()
}

#[test]
fn horizontal_flow() {
    let mut tree = LayoutTree::new(vec2(800, 600));
    let root = tree.insert(
        Layout::new("root", Mode::LeftToRight).with_size(300, 100).with_padding_all(10).with_spacing(10),
    );
    let a = tree.append(root, Layout::horz("a").with_size(50, 50));
    let b = tree.append(root, Layout::horz("b").with_size(50, 50));
    let c = tree.append(root, Layout::horz("c").with_size(50, 50));
    assert_eq!(tree.shape(root), (vec2(0, 0), vec2(300, 100)));
    assert_eq!(tree.shape(a), (vec2(10, 10), vec2(50, 50)));
    assert_eq!(tree.shape(b), (vec2(70, 10), vec2(50, 50)));
    assert_eq!(tree.shape(c), (vec2(130, 10), vec2(50, 50)));
    let used = 50 + 50 + 50 + 2 * 10;
    assert_eq!(used, 170);
    assert!(used <= 300 - 2 * 10);
    let (pos, size) = tree.shape(c);
    assert_eq!(pos.x + size.x, 0 + 10 + 150 + 2 * 10);
}

#[test]
fn percentage_of_parent_inner_size() {
    let mut tree = LayoutTree::new(vec2(800, 600));
    let root = tree.insert(Layout::horz("root").with_size(400, 400).with_padding_all(20));
    let child = tree.append(root, Layout::horz("child").with_size_p(5000, 2500));
    assert_eq!(tree.shape(child).1, vec2(180, 90));
    assert_eq!(tree.shape(child).0, vec2(20, 20));
}

#[test]
fn resolving_twice_changes_nothing() {
    let mut tree = LayoutTree::new(vec2(640, 480));
    let root = tree.insert(
        Layout::vert("root").with_size_s(5000, 10000).with_padding(3, 4, 5, 6).with_spacing(7).with_align(Align::Center),
    );
    let a = tree.append(root, Layout::horz("a").with_fill_width().with_content(vec2(10, 20)));
    tree.append(root, Layout::horz("b").with_fill().with_margins(1, 2, 3, 4));
    tree.append(a, Layout::horz("a1").with_size_p(3333, 10000));
    tree.append(a, Layout::horz("a2").with_content(vec2(11, 13)));
    tree.resolve();
    let first = (tree.natural.clone(), tree.sizes.clone(), tree.places.clone());
    tree.resolve();
    let second = (tree.natural.clone(), tree.sizes.clone(), tree.places.clone());
    assert_eq!(first, second);
    assert!(!tree.dirty);
}

#[test]
fn sizes_are_never_negative() {
    let mut tree = LayoutTree::new(vec2(-5, -7));
    let root = tree.insert(Layout::horz("root").with_fill().with_padding_all(50).with_margins(9, 9, 9, 9));
    tree.append(root, Layout::horz("a").with_size_p(5000, 5000));
    tree.append(root, Layout::horz("b").with_fill());
    tree.append(root, Layout::horz("c").with_content(vec2(-3, -4)));
    for (_, size) in shapes(&mut tree) {
        assert!(size.x >= 0 && size.y >= 0);
    }
    assert_eq!(tree.shape(root).1, vec2(0, 0));
}

#[test]
fn root_is_placed_by_its_position_policy() {
    let mut tree = LayoutTree::new(vec2(800, 600));
    let root = tree.insert(Layout::horz("root").with_size(200, 100).with_position(Position::Center(None)));
    assert_eq!(tree.shape(root), (vec2(300, 250), vec2(200, 100)));
    let mut tree = LayoutTree::new(vec2(800, 600));
    let root = tree.insert(
        Layout::horz("root")
            .with_size(200, 100)
            .with_position(Position::RightBottom(Some(RectOffset::new(0, 5, 0, 7)))),
    );
    assert_eq!(tree.shape(root).0, vec2(595, 493));
    let mut tree = LayoutTree::new(vec2(800, 600));
    let root = tree.insert(Layout::horz("root").with_size(200, 100).with_position(Position::Absolute(vec2(-4, 9))));
    assert_eq!(tree.shape(root).0, vec2(-4, 9));
}

#[test]
fn screen_relative_size() {
    let mut tree = LayoutTree::new(vec2(800, 600));
    let root = tree.insert(Layout::horz("root").with_size_s(2500, 5000));
    assert_eq!(tree.shape(root).1, vec2(200, 300));
    tree.set_screen(vec2(400, 200));
    assert!(tree.dirty);
    assert_eq!(tree.shape(root).1, vec2(100, 100));
}

#[test]
fn fill_children_share_what_is_left() {
    let mut tree = LayoutTree::new(vec2(800, 600));
    let root = tree.insert(Layout::horz("root").with_size(300, 100).with_padding_all(10).with_spacing(10));
    let a = tree.append(root, Layout::horz("a").with_size(50, 50));
    let b = tree.append(root, Layout::horz("b").with_fill_width().with_content(vec2(1, 30)));
    let c = tree.append(root, Layout::horz("c").with_fill());
    // inner width 280, fixed 50, two gaps of 10: 210 left for two filling children
    assert_eq!(tree.shape(a), (vec2(10, 10), vec2(50, 50)));
    assert_eq!(tree.shape(b), (vec2(70, 10), vec2(105, 30)));
    assert_eq!(tree.shape(c), (vec2(185, 10), vec2(105, 80)));
}

#[test]
fn fill_share_rounds_down() {
    let mut tree = LayoutTree::new(vec2(800, 600));
    let root = tree.insert(Layout::vert("root").with_size(100, 101));
    let a = tree.append(root, Layout::horz("a").with_fill_height());
    let b = tree.append(root, Layout::horz("b").with_fill_height());
    assert_eq!(tree.shape(a).1.y, 50);
    assert_eq!(tree.shape(b).1.y, 50);
    assert_eq!(tree.shape(b).0.y, 50);
}

#[test]
fn overflowing_children_keep_their_places() {
    let mut tree = LayoutTree::new(vec2(800, 600));
    let root = tree.insert(Layout::horz("root").with_size(100, 100));
    let a = tree.append(root, Layout::horz("a").with_size(80, 10));
    let b = tree.append(root, Layout::horz("b").with_size(80, 10));
    let c = tree.append(root, Layout::horz("c").with_fill_width());
    assert_eq!(tree.shape(a).0.x, 0);
    assert_eq!(tree.shape(b).0.x, 80);
    assert_eq!(tree.shape(c), (vec2(160, 0), vec2(0, 0)));
}

#[test]
fn vertical_flow_with_margins_and_alignment() {
    let mut tree = LayoutTree::new(vec2(800, 600));
    let root = tree.insert(
        Layout::vert("root").with_size(200, 300).with_padding(10, 20, 30, 40).with_spacing(5).with_align(Align::End),
    );
    let a = tree.append(root, Layout::horz("a").with_size(50, 60).with_margins(1, 2, 3, 4));
    let b = tree.append(root, Layout::horz("b").with_size(70, 80));
    // inner size (170, 230); cross axis is x
    assert_eq!(tree.shape(a), (vec2(10 + 170 - 53 + 1, 30 + 3), vec2(50, 60)));
    assert_eq!(tree.shape(b), (vec2(10 + 170 - 70, 30 + 67 + 5), vec2(70, 80)));
    let mut tree = LayoutTree::new(vec2(800, 600));
    let root = tree.insert(Layout::vert("root").with_size(200, 300).with_align(Align::Center));
    let a = tree.append(root, Layout::horz("a").with_size(51, 60));
    assert_eq!(tree.shape(a).0, vec2(74, 0));
}

#[test]
fn reverse_flows_start_at_the_far_edge() {
    let mut tree = LayoutTree::new(vec2(800, 600));
    let root = tree.insert(
        Layout::new("root", Mode::RightToLeft).with_size(300, 100).with_padding_all(10).with_spacing(10),
    );
    let a = tree.append(root, Layout::horz("a").with_size(50, 50));
    let b = tree.append(root, Layout::horz("b").with_size(60, 50));
    assert_eq!(tree.shape(a).0, vec2(240, 10));
    assert_eq!(tree.shape(b).0, vec2(170, 10));
    let mut tree = LayoutTree::new(vec2(800, 600));
    let root = tree.insert(Layout::new("root", Mode::BottomToTop).with_size(100, 300).with_padding_all(10));
    let a = tree.append(root, Layout::horz("a").with_size(50, 50).with_margins(0, 0, 0, 5));
    assert_eq!(tree.shape(a).0, vec2(10, 235));
}

#[test]
fn unset_container_wraps_its_children() {
    let mut tree = LayoutTree::new(vec2(800, 600));
    let root = tree.insert(Layout::horz("root").with_padding_all(5).with_spacing(3));
    tree.append(root, Layout::horz("a").with_size(10, 20));
    tree.append(root, Layout::horz("b").with_size(30, 15).with_margins(1, 1, 2, 2));
    assert_eq!(tree.shape(root).1, vec2(10 + 32 + 3 + 10, 20 + 10));
    let mut tree = LayoutTree::new(vec2(800, 600));
    let leaf = tree.insert(Layout::horz("leaf").with_content(vec2(42, 17)));
    assert_eq!(tree.shape(leaf).1, vec2(42, 17));
}

#[test]
fn append_is_idempotent_per_identifier() {
    let mut tree = LayoutTree::new(vec2(800, 600));
    let root = tree.insert(Layout::horz("root").with_size(300, 100));
    let a = tree.subs_append(root, Layout::horz("a").with_size(50, 50));
    let b = tree.subs_append(root, Layout::horz("b").with_size(50, 50));
    let again = tree.subs_append(root, Layout::horz("a").with_size(99, 99));
    assert_eq!(again, a);
    assert_ne!(a, b);
    assert_eq!(tree.len(), 3);
    assert_eq!(tree.child_count(root), 2);
    assert_eq!(tree.child_at(root, 0), a);
    assert_eq!(tree.child_at(root, 1), b);
    assert_eq!(tree.parent_of(a), Some(root));
    assert_eq!(tree.parent_of(root), None);
    assert_eq!(tree.shape(a).1, vec2(50, 50));
}

#[test]
fn long_chains_of_relative_sizes_collapse() {
    let mut tree = LayoutTree::new(vec2(800, 600));
    let mut node = tree.insert(Layout::horz("root").with_size(1000, 1000));
    let mut ids = Vec::new();
    for i in 0..70 {
        node = tree.append(node, Layout::horz(&format!("n{i}")).with_size_p(10000, 10000));
        ids.push(node);
    }
    assert_eq!(tree.shape(ids[63]).1, vec2(1000, 1000));
    assert_eq!(tree.shape(ids[64]).1, vec2(0, 0));
    assert_eq!(tree.shape(ids[69]).1, vec2(0, 0));
}

#[test]
fn builders_replace_one_field() {
    let l = Layout::new("x", Mode::TopToBottom)
        .with_size(1, 2)
        .with_margins(1, 2, 3, 4)
        .with_padding_all(9)
        .with_spacing(6)
        .with_align(Align::Center)
        .with_mode(Mode::BottomToTop)
        .with_position(Position::Center(None));
    assert_eq!(l.id, "x");
    assert_eq!(l.size, Size::Static(1, 2));
    assert_eq!(l.margin, RectOffset::new(1, 2, 3, 4));
    assert_eq!(l.padding, RectOffset::all(9));
    assert_eq!(l.spacing, 6);
    assert_eq!(l.align, Align::Center);
    assert_eq!(l.mode, Mode::BottomToTop);
    assert_eq!(l.position, Position::Center(None));
    let m = l.duplicate().with_size_p(1, 2).with_id("y");
    assert_eq!(m.size, Size::Percent(1, 2));
    assert_eq!(m.id, "y");
    assert_eq!(l.size, Size::Static(1, 2));
    assert_eq!(m.spacing, 6);
}

#[test]
fn add_follows_the_declared_parent() {
    let mut tree = LayoutTree::new(vec2(800, 600));
    let root = tree.add(Layout::horz("root").with_size(300, 100)).unwrap();
    assert_eq!(tree.parent_of(root), None);
    let a = tree.add(Layout::horz("a").with_size(50, 50).with_parent(root)).unwrap();
    assert_eq!(tree.parent_of(a), Some(root));
    let again = tree.add(Layout::horz("a").with_parent(root)).unwrap();
    assert_eq!(again, a);
    assert_eq!(tree.len(), 2);
}

#[test]
fn add_refuses_an_unknown_parent() {
    let mut tree = LayoutTree::new(vec2(800, 600));
    let root = tree.add(Layout::horz("root")).unwrap();
    assert_eq!(root, 0);
    assert_eq!(
        tree.add(Layout::horz("a").with_parent(7)),
        Err(ui_core::layout_tree::LayoutError::InvariantViolated)
    );
    assert_eq!(tree.len(), 1);
}

#[test]
fn overflow_is_flagged() {
    let mut tree = LayoutTree::new(vec2(800, 600));
    let root = tree.insert(Layout::horz("root").with_size(300, 100).with_padding_all(10).with_spacing(10));
    tree.append(root, Layout::horz("a").with_size(130, 50));
    tree.append(root, Layout::horz("b").with_size(140, 50));
    tree.resolve();
    assert!(!tree.overflows(root));
    tree.append(root, Layout::horz("c").with_size(1, 50));
    tree.resolve();
    assert!(tree.overflows(root));
    let mut tree = LayoutTree::new(vec2(800, 600));
    let root = tree.insert(Layout::horz("root").with_size(300, 100));
    tree.resolve();
    assert!(!tree.overflows(root));
}

#[test]
fn shape_is_lazy() {
    let mut tree = LayoutTree::new(vec2(800, 600));
    let root = tree.insert(Layout::horz("root").with_size(300, 100));
    assert!(tree.dirty);
    assert_eq!(tree.shape(root).1, vec2(300, 100));
    assert!(!tree.dirty);
    tree.append(root, Layout::horz("a").with_size(5, 5));
    assert!(tree.dirty);
    tree.append(root, Layout::horz("a").with_size(5, 5));
    assert_eq!(tree.shape(root).1, vec2(300, 100));
    assert!(!tree.dirty);
    tree.append(root, Layout::horz("a").with_size(5, 5));
    assert!(!tree.dirty);
}

#[test]
fn roots_are_found_by_identifier() {
    let mut tree = LayoutTree::new(vec2(800, 600));
    let a = tree.subs_root(Layout::horz("a").with_size(10, 10));
    let b = tree.subs_root(Layout::horz("b").with_size(20, 20));
    let child = tree.append(a, Layout::horz("b").with_size(1, 1));
    assert_eq!(tree.subs_root(Layout::horz("a").with_size(99, 99)), a);
    assert_eq!(tree.subs_root(Layout::horz("b")), b);
    assert_ne!(child, b);
    assert_eq!(tree.len(), 3);
    assert_eq!(tree.shape(a).1, vec2(10, 10));
    assert_eq!(tree.add(Layout::horz("a")), Ok(a));
    let fresh = tree.insert(Layout::horz("a"));
    assert_eq!(fresh, 3);
}
