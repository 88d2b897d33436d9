//! The configuration of one layout node and its fluent builders.
use crate::geometry::{Align, Position, RectOffset, Size, Vec2};
use vstd::prelude::*;

verus! {

/// Direction in which a node lays out its children.
#[derive(Clone, Copy, Debug, PartialEq, Eq, Structural)]
pub enum Mode {
    LeftToRight,
    RightToLeft,
    TopToBottom,
    BottomToTop,
}

impl Mode {
    /// The children follow each other along the x axis.
    pub open spec fn spec_is_horizontal(&self) -> bool {
        *self is LeftToRight || *self is RightToLeft
    }

    /// The children start at the far edge and run backwards.
    pub open spec fn spec_is_reverse(&self) -> bool {
        *self is RightToLeft || *self is BottomToTop
    }

    #[verifier::when_used_as_spec(spec_is_horizontal)]
    pub fn is_horizontal(&self) -> (r: bool)
        ensures
            r == self.spec_is_horizontal(),
    {
        match self {
            Mode::LeftToRight | Mode::RightToLeft => true,
            _ => false,
        }
    }

    #[verifier::when_used_as_spec(spec_is_reverse)]
    pub fn is_reverse(&self) -> (r: bool)
        ensures
            r == self.spec_is_reverse(),
    {
        match self {
            Mode::RightToLeft | Mode::BottomToTop => true,
            _ => false,
        }
    }
}

/// Everything a node is configured with. Each builder returns a new value that
/// differs from the one it was called on in the named field only.
#[derive(Debug)]
pub struct Layout {
    /// Identity among the children of one parent.
    pub id: String,
    pub mode: Mode,
    pub size: Size,
    /// Placement on the surface; read for a root only.
    pub position: Position,
    pub margin: RectOffset,
    pub padding: RectOffset,
    /// Gap between successive children along the mode axis.
    pub spacing: u32,
    /// Placement of the children on the cross axis.
    pub align: Align,
    /// Measured size of the node's own content, used where it has no children.
    pub content: Vec2,
    /// The node that is to adopt this one when it is added to a tree.
    pub parent: Option<usize>,
}

impl Layout {
    /// A node with the given flow and nothing else set.
    pub fn new(id: &str, mode: Mode) -> (l: Self)
        ensures
            l.id@ == id@,
            l.mode == mode,
            l.size == Size::Unset,
            l.position == Position::LeftTop(None),
            l.margin == (RectOffset { left: 0, right: 0, top: 0, bottom: 0 }),
            l.padding == (RectOffset { left: 0, right: 0, top: 0, bottom: 0 }),
            l.spacing == 0,
            l.align == Align::Start,
            l.content == (Vec2 { x: 0, y: 0 }),
            l.parent is None,
    {
        Layout {
            id: id.to_owned(),
            mode,
            size: Size::Unset,
            position: Position::LeftTop(None),
            margin: RectOffset { left: 0, right: 0, top: 0, bottom: 0 },
            padding: RectOffset { left: 0, right: 0, top: 0, bottom: 0 },
            spacing: 0,
            align: Align::Start,
            content: Vec2 { x: 0, y: 0 },
            parent: None,
        }
    }

    /// A node that lays out its children from left to right.
    pub fn horz(id: &str) -> (l: Self)
        ensures
            l.id@ == id@,
            l.mode == Mode::LeftToRight,
            l.size == Size::Unset,
            l.position == Position::LeftTop(None),
            l.margin == (RectOffset { left: 0, right: 0, top: 0, bottom: 0 }),
            l.padding == (RectOffset { left: 0, right: 0, top: 0, bottom: 0 }),
            l.spacing == 0,
            l.align == Align::Start,
            l.content == (Vec2 { x: 0, y: 0 }),
            l.parent is None,
    {
        Layout::new(id, Mode::LeftToRight)
    }

    /// A node that lays out its children from top to bottom.
    pub fn vert(id: &str) -> (l: Self)
        ensures
            l.id@ == id@,
            l.mode == Mode::TopToBottom,
            l.size == Size::Unset,
            l.position == Position::LeftTop(None),
            l.margin == (RectOffset { left: 0, right: 0, top: 0, bottom: 0 }),
            l.padding == (RectOffset { left: 0, right: 0, top: 0, bottom: 0 }),
            l.spacing == 0,
            l.align == Align::Start,
            l.content == (Vec2 { x: 0, y: 0 }),
            l.parent is None,
    {
        Layout::new(id, Mode::TopToBottom)
    }

    /// A copy with the same fields.
    pub fn duplicate(&self) -> (l: Self)
        ensures
            l == *self,
    {
        Layout {
            id: self.id.clone(),
            mode: self.mode,
            size: self.size,
            position: self.position,
            margin: self.margin,
            padding: self.padding,
            spacing: self.spacing,
            align: self.align,
            content: self.content,
            parent: self.parent,
        }
    }

    /// Replaces the identifier.
    pub fn with_id(self, id: &str) -> (l: Self)
        ensures
            l.id@ == id@,
            l == (Layout { id: l.id, ..self }),
    {
        Layout { id: id.to_owned(), ..self }
    }

    /// A fixed size in pixels.
    pub fn with_size(self, w: u32, h: u32) -> (l: Self)
        ensures
            l == (Layout { size: Size::Static(w, h), ..self }),
    {
        Layout { size: Size::Static(w, h), ..self }
    }

    /// A size in basis points of the parent's inner size.
    pub fn with_size_p(self, pw: u16, ph: u16) -> (l: Self)
        ensures
            l == (Layout { size: Size::Percent(pw, ph), ..self }),
    {
        Layout { size: Size::Percent(pw, ph), ..self }
    }

    /// A size in basis points of the root surface.
    pub fn with_size_s(self, pw: u16, ph: u16) -> (l: Self)
        ensures
            l == (Layout { size: Size::ScreenRelative(pw, ph), ..self }),
    {
        Layout { size: Size::ScreenRelative(pw, ph), ..self }
    }

    /// Any size policy.
    pub fn with_size_policy(self, size: Size) -> (l: Self)
        ensures
            l == (Layout { size, ..self }),
    {
        Layout { size, ..self }
    }

    /// Takes the width the parent has left.
    pub fn with_fill_width(self) -> (l: Self)
        ensures
            l == (Layout { size: Size::FillWidth, ..self }),
    {
        Layout { size: Size::FillWidth, ..self }
    }

    /// Takes the height the parent has left.
    pub fn with_fill_height(self) -> (l: Self)
        ensures
            l == (Layout { size: Size::FillHeight, ..self }),
    {
        Layout { size: Size::FillHeight, ..self }
    }

    /// Takes what the parent has left on both axes.
    pub fn with_fill(self) -> (l: Self)
        ensures
            l == (Layout { size: Size::FillBoth, ..self }),
    {
        Layout { size: Size::FillBoth, ..self }
    }

    /// Replaces the position policy.
    pub fn with_position(self, position: Position) -> (l: Self)
        ensures
            l == (Layout { position, ..self }),
    {
        Layout { position, ..self }
    }

    /// Replaces the four margins.
    pub fn with_margins(self, left: u32, right: u32, top: u32, bottom: u32) -> (l: Self)
        ensures
            l == (Layout { margin: RectOffset { left, right, top, bottom }, ..self }),
    {
        Layout { margin: RectOffset { left, right, top, bottom }, ..self }
    }

    /// Replaces the four paddings.
    pub fn with_padding(self, left: u32, right: u32, top: u32, bottom: u32) -> (l: Self)
        ensures
            l == (Layout { padding: RectOffset { left, right, top, bottom }, ..self }),
    {
        Layout { padding: RectOffset { left, right, top, bottom }, ..self }
    }

    /// The same padding on all four sides.
    pub fn with_padding_all(self, v: u32) -> (l: Self)
        ensures
            l == (Layout { padding: RectOffset { left: v, right: v, top: v, bottom: v }, ..self }),
    {
        Layout { padding: RectOffset { left: v, right: v, top: v, bottom: v }, ..self }
    }

    /// Replaces the gap between successive children.
    pub fn with_spacing(self, spacing: u32) -> (l: Self)
        ensures
            l == (Layout { spacing, ..self }),
    {
        Layout { spacing, ..self }
    }

    /// Replaces the cross-axis alignment of the children.
    pub fn with_align(self, align: Align) -> (l: Self)
        ensures
            l == (Layout { align, ..self }),
    {
        Layout { align, ..self }
    }

    /// Replaces the flow direction.
    pub fn with_mode(self, mode: Mode) -> (l: Self)
        ensures
            l == (Layout { mode, ..self }),
    {
        Layout { mode, ..self }
    }

    /// Declares the node of the tree that is to adopt this one.
    pub fn with_parent(self, parent: usize) -> (l: Self)
        ensures
            l == (Layout { parent: Some(parent), ..self }),
    {
        Layout { parent: Some(parent), ..self }
    }

    /// Replaces the measured content size.
    pub fn with_content(self, content: Vec2) -> (l: Self)
        ensures
            l == (Layout { content, ..self }),
    {
        Layout { content, ..self }
    }
}

} // verus!
