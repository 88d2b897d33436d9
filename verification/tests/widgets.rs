use ui_core::frame::{contains, respond, Frame, Response, Texture};
use ui_core::geometry::{
    fraction_of, half, saturate, vec2, Color, Position, Rect, RectOffset, Size, Vec2,
};
use ui_core::image::Image;
use ui_core::label::{Label, LabelBuilder, Skin};
use ui_core::layout::Layout;
use ui_core::layout_tree::LayoutTree;
use ui_core::menu_panel;
use ui_core::panel::Panel;
use ui_core::scaling::{scale, scale_rect, scale_vec2, SCALE_MULTIPLIER};

#[test]
fn test_frame_setters() {
    let mut frame = Frame::new();
    assert_eq!(vec2(2, 2), vec2(2, 2));
    frame.set_fill(Color::black());
    assert_eq!(frame.fill(), Color::black());
}

#[test]
fn test() {
    //
}

#[test]
fn test_foo() {
    assert_eq!(vec2(2, 2), vec2(2, 2));
}

#[test]
fn frame_builders() {
    let f = Frame::new();
    assert_eq!(f.fill(), Color::gray());
    assert_eq!(f.image, None);
    let g = f
        .with_fill(Color::new(1, 2, 3, 4))
        .with_image(Some(Texture(1)))
        .with_image_clk(Some(Texture(2)))
        .with_image_hov(Some(Texture(3)));
    assert_eq!(g.fill, Color::new(1, 2, 3, 4));
    assert_eq!((g.image, g.image_clk, g.image_hov), (Some(Texture(1)), Some(Texture(2)), Some(Texture(3))));
    assert!(g.fills());
    assert!(!g.with_fill(Color::new(1, 2, 3, 0)).fills());
}

#[test]
fn frame_picks_image_by_response() {
    let f = Frame::new()
        .with_image(Some(Texture(1)))
        .with_image_clk(Some(Texture(2)))
        .with_image_hov(Some(Texture(3)));
    assert_eq!(f.pick_image(Response { clicked: true, hovered: true }), Some(Texture(2)));
    assert_eq!(f.pick_image(Response { clicked: false, hovered: true }), Some(Texture(3)));
    assert_eq!(f.pick_image(Response { clicked: false, hovered: false }), Some(Texture(1)));
    let g = f.with_image_clk(None);
    assert_eq!(g.pick_image(Response { clicked: true, hovered: true }), Some(Texture(3)));
    let h = g.with_image_hov(None);
    assert_eq!(h.pick_image(Response { clicked: true, hovered: true }), Some(Texture(1)));
    assert_eq!(Frame::new().pick_image(Response { clicked: true, hovered: true }), None);
}

#[test]
fn response_follows_pointer() {
    let rect = Rect { pos: vec2(10, 10), size: vec2(20, 20) };
    assert!(contains(rect, vec2(10, 10)));
    assert!(contains(rect, vec2(29, 29)));
    assert!(!contains(rect, vec2(30, 10)));
    assert!(!contains(rect, vec2(9, 10)));
    assert_eq!(respond(true, rect, vec2(15, 15), true), Response { clicked: true, hovered: true });
    assert_eq!(respond(true, rect, vec2(15, 15), false), Response { clicked: false, hovered: true });
    assert_eq!(respond(true, rect, vec2(50, 15), true), Response { clicked: false, hovered: false });
    assert_eq!(respond(false, rect, vec2(15, 15), true), Response { clicked: false, hovered: false });
}

#[test]
fn geometry_helpers() {
    assert_eq!(saturate(i128::MAX), i64::MAX);
    assert_eq!(saturate(i128::MIN), i64::MIN);
    assert_eq!(saturate(-17), -17);
    assert_eq!(half(7), 3);
    assert_eq!(half(-7), -3);
    assert_eq!(fraction_of(360, 5000), 180);
    assert_eq!(fraction_of(360, 2500), 90);
    assert_eq!(fraction_of(360, 20000), 360);
    assert_eq!(fraction_of(-360, 5000), 0);
    assert_eq!(fraction_of(10, 3333), 3);
    assert_eq!(RectOffset::default(), RectOffset::new(0, 0, 0, 0));
    assert_eq!(Position::default(), Position::LeftTop(None));
}

#[test]
fn position_resolves_in_container() {
    let size = vec2(20, 10);
    let cont = vec2(100, 50);
    assert_eq!(Position::LeftTop(None).relative(size, cont, None), vec2(0, 0));
    assert_eq!(Position::Center(None).relative(size, cont, None), vec2(40, 20));
    assert_eq!(Position::RightBottom(None).relative(size, cont, None), vec2(80, 40));
    assert_eq!(Position::CenterTop(None).relative(size, cont, None), vec2(40, 0));
    assert_eq!(Position::LeftCenter(None).relative(size, cont, None), vec2(0, 20));
    assert_eq!(Position::RightTop(None).relative(size, cont, None), vec2(80, 0));
    assert_eq!(Position::LeftBottom(None).relative(size, cont, None), vec2(0, 40));
    assert_eq!(Position::CenterBottom(None).relative(size, cont, None), vec2(40, 40));
    assert_eq!(Position::RightCenter(None).relative(size, cont, None), vec2(80, 20));
    let off = Some(RectOffset::new(1, 2, 3, 4));
    assert_eq!(Position::LeftTop(off).relative(size, cont, None), vec2(1, 3));
    assert_eq!(Position::RightBottom(off).relative(size, cont, None), vec2(78, 36));
    assert_eq!(Position::Center(off).relative(size, cont, Some(vec2(5, 5))), vec2(44, 24));
    assert_eq!(Position::Absolute(vec2(7, 8)).relative(size, cont, Some(vec2(1, 1))), vec2(8, 9));
    assert_eq!(Position::Center(None).relative(vec2(101, 10), cont, None), vec2(0, 20));
    assert_eq!(Position::Center(None).relative(vec2(103, 10), cont, None), vec2(-1, 20));
}

#[test]
fn panel_builders_and_show() {
    let p = Panel::new("p")
        .with_frame(|f| f.with_fill(Color::black()))
        .with_layout(|l| l.with_size(120, 40));
    assert_eq!(p.frame().fill, Color::black());
    assert_eq!(p.layout().size, Size::Static(120, 40));
    assert_eq!(p.layout().id, "p");
    let mut q = p.build("q").interact();
    assert!(q.interact);
    assert_eq!(q.layout.id, "q");
    assert_eq!(q.layout.size, Size::Static(120, 40));
    q.set_frame(|f| f.with_fill(Color::gray()));
    assert_eq!(q.frame().fill, Color::gray());
    assert!(!q.no_interact().interact);

    let mut tree = LayoutTree::new(vec2(800, 600));
    let root = Panel::new("root").with_layout(|l| l.with_size(300, 100).with_padding_all(10).with_spacing(10));
    let drawn = root.show(&mut tree);
    assert_eq!(drawn.rect, Rect { pos: vec2(0, 0), size: vec2(300, 100) });
    assert_eq!(drawn.fill, Color::gray());
    let first = p.show_p(&mut tree, drawn.node);
    assert_eq!(first.rect, Rect { pos: vec2(10, 10), size: vec2(120, 40) });
    assert_eq!(first.fill, Color::black());
    let second = Panel::new("s").with_layout(|l| l.with_size(50, 50)).show_p(&mut tree, drawn.node);
    assert_eq!(second.rect.pos, vec2(140, 10));
    let again = p.show_p(&mut tree, drawn.node);
    assert_eq!(again, first);
    assert_eq!(tree.len(), 3);
}

#[test]
fn image_widget_wraps_a_panel() {
    let img = Image::new("img", Texture(5));
    assert_eq!(img.panel.frame.image, Some(Texture(5)));
    assert_eq!(img.panel.layout.id, "img");
    let img = img
        .image_clk(Texture(6))
        .image_hov(Texture(7))
        .interact()
        .layout(|l| l.with_size(32, 32))
        .frame(|f| f.with_fill(Color::black()));
    assert_eq!(img.panel.frame.image_clk, Some(Texture(6)));
    assert_eq!(img.panel.frame.image_hov, Some(Texture(7)));
    assert!(img.panel.interact);
    assert_eq!(img.layout_ptr().size, Size::Static(32, 32));
    let other = img.build("other", Texture(8));
    assert_eq!(other.panel.frame.image, Some(Texture(8)));
    assert_eq!(other.panel.frame.image_clk, Some(Texture(6)));
    assert_eq!(other.panel.layout.id, "other");
    let other = other.id("third").image(Texture(9)).no_interact();
    assert_eq!(other.panel.layout.id, "third");
    assert_eq!(other.panel.frame.image, Some(Texture(9)));
    assert!(!other.panel.interact);
    let mut tree = LayoutTree::new(vec2(100, 100));
    let root = tree.insert(Layout::horz("root").with_size(100, 100));
    let d = img.show_p(&mut tree, root);
    assert_eq!(d.rect, Rect { pos: vec2(0, 0), size: vec2(32, 32) });
    let blank = Image::default();
    assert_eq!(blank.panel.frame, Frame::new());
    assert_eq!(blank.panel.layout.id, "");
}

#[test]
fn label_builders() {
    let l = Label::new("hello");
    assert_eq!(l.text(), "hello");
    assert!(l.dirty);
    assert_eq!(l.conf.font_size, 16);
    assert_eq!(l.conf.font_color, Color::black());
    assert_eq!(l.conf.position, Position::Center(Some(RectOffset::default())));
    let l = l
        .with_size(Some(Size::Static(10, 10)))
        .with_position(Position::LeftTop(None))
        .with_font(None)
        .with_font_size(20)
        .with_font_color(Color::gray());
    assert_eq!(l.conf.size, Some(Size::Static(10, 10)));
    assert_eq!(l.conf.position, Position::LeftTop(None));
    assert_eq!(l.conf.font_size, 20);
    assert_eq!(l.conf.font_color, Color::gray());
    let b = LabelBuilder::new();
    let made = b.build("text");
    assert_eq!(made.text(), "text");
    assert!(made.dirty);
    assert_eq!(made.calc_size, vec2(0, 0));
}

#[test]
fn label_skin_update_and_placement() {
    let mut l = Label::new("hello").with_font_color(Color::gray());
    l.update_skin(vec2(40, 12));
    assert!(!l.dirty);
    assert_eq!(l.calc_size, vec2(40, 12));
    let skin: Skin = l.skin.unwrap();
    assert_eq!(skin.font_color, Color::gray());
    assert_eq!(skin.font_size, 16);
    l.update_skin(vec2(99, 99));
    assert_eq!(l.calc_size, vec2(40, 12));
    let mut l = l.with_font_size(30);
    assert!(l.dirty);
    let r = l.ui(vec2(60, 20), vec2(200, 100), vec2(5, 7));
    assert_eq!(r, Rect { pos: vec2(75, 47), size: vec2(60, 20) });
    assert_eq!(l.skin.unwrap().font_size, 30);
}

#[test]
fn menu_panel_geometry() {
    let mut p = menu_panel::Panel::new(1, vec2(250, 250), Texture(3)).margin(RectOffset::new(20, 20, 10, 30));
    assert_eq!(p.size(), vec2(250, 250));
    p.position(Position::Center(None));
    let g = p.ui(vec2(450, 800));
    assert_eq!(g.bg_position, vec2(100, 275));
    assert_eq!(g.group_size, vec2(210, 210));
    assert_eq!(g.group_position, vec2(120, 285));
    p.position(Position::Absolute(vec2(3, 4)));
    let g = p.ui(vec2(450, 800));
    assert_eq!(g.bg_position, vec2(3, 4));
    assert_eq!(g.group_position, vec2(23, 14));
}

#[test]
fn menu_panel_content_collapses_under_wide_margins() {
    let p = menu_panel::Panel::new(1, vec2(30, 100), Texture(3)).margin(RectOffset::new(20, 20, 60, 40));
    let g = p.ui(vec2(450, 800));
    assert_eq!(g.group_size, vec2(0, 0));
    assert_eq!(g.group_position, vec2(20, 60));
    let q = menu_panel::Panel::new(1, vec2(30, 100), Texture(3)).margin(RectOffset::new(20, 20, 10, 10));
    assert_eq!(q.ui(vec2(450, 800)).group_size, vec2(0, 80));
}

#[test]
fn panel_shown_twice_stands_once() {
    let mut tree = LayoutTree::new(vec2(800, 600));
    let root = Panel::new("root").with_layout(|l| l.with_size(300, 100).with_padding_all(10).with_spacing(10));
    let child = Panel::new("child").with_layout(|l| l.with_size(50, 50));
    let first = root.show(&mut tree);
    let inner = child.show_p(&mut tree, first.node);
    let again = root.show(&mut tree);
    let inner_again = child.show_p(&mut tree, again.node);
    assert_eq!(again, first);
    assert_eq!(inner_again, inner);
    assert_eq!(tree.len(), 2);
    let other = Panel::new("other").with_layout(|l| l.with_size(5, 5)).show(&mut tree);
    assert_eq!(other.node, 2);
    assert_eq!(tree.parent_of(other.node), None);
}

#[test]
fn scaling_multiplies_by_the_factor() {
    assert_eq!(SCALE_MULTIPLIER, 1);
    assert_eq!(scale(40), 40 * SCALE_MULTIPLIER);
    assert_eq!(scale_vec2(250, -250), Vec2 { x: 250, y: -250 });
    assert_eq!(scale_rect(20, 20, 10, 30), RectOffset::new(20, 20, 10, 30));
    assert_eq!(scale(u32::MAX), u32::MAX);
}
