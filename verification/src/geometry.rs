//! Geometry primitives on an integer pixel grid.
//!
//! Coordinates are whole pixels held in `i64`. Results that would leave the range
//! of `i64` stop at its ends; `saturated` names that rule. Fractions of a length
//! are given in basis points, ten thousand to the whole.
use vstd::prelude::*;

verus! {

/// Basis points in one whole.
pub const WHOLE: u16 = 10000;

/// A point or an extent.
#[derive(Clone, Copy, Debug, PartialEq, Eq, Structural)]
pub struct Vec2 {
    pub x: i64,
    pub y: i64,
}

/// A rectangle by its top-left corner and its extent.
#[derive(Clone, Copy, Debug, PartialEq, Eq, Structural)]
pub struct Rect {
    pub pos: Vec2,
    pub size: Vec2,
}

/// Distances kept free on the four sides of a rectangle.
#[derive(Clone, Copy, Debug, PartialEq, Eq, Structural)]
pub struct RectOffset {
    pub left: u32,
    pub right: u32,
    pub top: u32,
    pub bottom: u32,
}

/// A colour by its red, green, blue and alpha channels.
#[derive(Clone, Copy, Debug, PartialEq, Eq, Structural)]
pub struct Color {
    pub r: u8,
    pub g: u8,
    pub b: u8,
    pub a: u8,
}

impl Color {
    /// Makes a colour from its four channels.
    pub fn new(r: u8, g: u8, b: u8, a: u8) -> (c: Self)
        ensures
            c == (Color { r, g, b, a }),
    {
        Color { r, g, b, a }
    }

    /// Opaque black.
    pub fn black() -> (c: Self)
        ensures
            c == (Color { r: 0, g: 0, b: 0, a: 255 }),
    {
        Color { r: 0, g: 0, b: 0, a: 255 }
    }

    /// Opaque mid grey.
    pub fn gray() -> (c: Self)
        ensures
            c == (Color { r: 130, g: 130, b: 130, a: 255 }),
    {
        Color { r: 130, g: 130, b: 130, a: 255 }
    }
}

/// `v` held to the range of `i64`.
pub open spec fn saturated(v: int) -> int {
    if v < i64::MIN {
        i64::MIN as int
    } else if v > i64::MAX {
        i64::MAX as int
    } else {
        v
    }
}

/// `v`, or 0 where `v` is negative.
pub open spec fn floored(v: int) -> int {
    if v < 0 {
        0
    } else {
        v
    }
}

/// Half of `v`, rounded towards zero.
pub open spec fn halved(v: int) -> int {
    if v >= 0 {
        v / 2
    } else {
        -((-v) / 2)
    }
}

/// `bp` basis points of `len`, rounded down; more than a whole counts as a whole
/// and a negative length as none.
pub open spec fn fraction(len: int, bp: int) -> int {
    (floored(len) * (if bp > WHOLE {
        WHOLE as int
    } else {
        bp
    })) / (WHOLE as int)
}

/// Brings a wide intermediate result back into `i64`.
pub fn saturate(v: i128) -> (r: i64)
    ensures
        r == saturated(v as int),
{
    if v < i64::MIN as i128 {
        i64::MIN
    } else if v > i64::MAX as i128 {
        i64::MAX
    } else {
        v as i64
    }
}

/// Computes `halved`.
pub fn half(v: i128) -> (r: i128)
    requires
        -0x4000_0000_0000_0000_0000_0000_0000_0000 < v < 0x4000_0000_0000_0000_0000_0000_0000_0000,
    ensures
        r == halved(v as int),
{
    if v >= 0 {
        v / 2
    } else {
        -((-v) / 2)
    }
}

/// Computes `fraction`.
pub fn fraction_of(len: i64, bp: u16) -> (r: i64)
    ensures
        r == fraction(len as int, bp as int),
        0 <= r,
        r <= floored(len as int),
{
    let base: i128 = if len < 0 {
        0
    } else {
        len as i128
    };
    let part: i128 = if bp > WHOLE {
        WHOLE as i128
    } else {
        bp as i128
    };
    assert(0 <= base * part <= base * 10000) by (nonlinear_arith)
        requires
            0 <= base,
            0 <= part <= 10000,
    ;
    let q: i128 = (base * part) / (WHOLE as i128);
    assert(0 <= (base * part) / 10000 <= base) by (nonlinear_arith)
        requires
            0 <= base * part <= base * 10000,
    ;
    q as i64
}

/// Makes a vector from its two coordinates.
pub fn vec2(x: i64, y: i64) -> (v: Vec2)
    ensures
        v == (Vec2 { x, y }),
{
    Vec2 { x, y }
}

impl RectOffset {
    /// Makes an offset from its four sides.
    pub fn new(left: u32, right: u32, top: u32, bottom: u32) -> (r: Self)
        ensures
            r == (RectOffset { left, right, top, bottom }),
    {
        RectOffset { left, right, top, bottom }
    }

    /// The same distance on all four sides.
    pub fn all(v: u32) -> (r: Self)
        ensures
            r == (RectOffset { left: v, right: v, top: v, bottom: v }),
    {
        RectOffset { left: v, right: v, top: v, bottom: v }
    }

    /// Left and right together.
    pub open spec fn width(&self) -> int {
        self.left + self.right
    }

    /// Top and bottom together.
    pub open spec fn height(&self) -> int {
        self.top + self.bottom
    }
}

impl Default for RectOffset {
    fn default() -> (r: Self)
        ensures
            r == (RectOffset { left: 0, right: 0, top: 0, bottom: 0 }),
    {
        RectOffset { left: 0, right: 0, top: 0, bottom: 0 }
    }
}

/// How a widget gets its size.
#[derive(Clone, Copy, Debug, PartialEq, Eq, Structural)]
pub enum Size {
    /// The natural size of the content.
    Unset,
    /// A width and a height in pixels.
    Static(u32, u32),
    /// Basis points of the parent's inner width and height.
    Percent(u16, u16),
    /// The width the parent has left; the height of the content.
    FillWidth,
    /// The height the parent has left; the width of the content.
    FillHeight,
    /// What the parent has left on both axes.
    FillBoth,
    /// Basis points of the root surface's width and height.
    ScreenRelative(u16, u16),
}

/// Where along one axis a widget is anchored in its container.
#[derive(Clone, Copy, Debug, PartialEq, Eq, Structural)]
pub enum Align {
    Start,
    Center,
    End,
}

/// Where a widget is placed in its container: at a fixed point, or anchored to a
/// corner, an edge centre or the centre, with an optional offset that moves it
/// inward from the anchored sides.
#[derive(Clone, Copy, Debug, PartialEq, Eq, Structural)]
pub enum Position {
    Absolute(Vec2),
    LeftTop(Option<RectOffset>),
    LeftCenter(Option<RectOffset>),
    LeftBottom(Option<RectOffset>),
    CenterTop(Option<RectOffset>),
    Center(Option<RectOffset>),
    CenterBottom(Option<RectOffset>),
    RightTop(Option<RectOffset>),
    RightCenter(Option<RectOffset>),
    RightBottom(Option<RectOffset>),
}

/// Offset of an extent `len` in a container of extent `room`, anchored by `anchor`
/// with `near` and `far` kept free at the start and the end. A centred extent is
/// moved by the difference of the two.
pub open spec fn anchored(anchor: Align, len: int, room: int, near: int, far: int) -> int {
    match anchor {
        Align::Start => near,
        Align::Center => halved(room - len) + near - far,
        Align::End => room - len - far,
    }
}

/// Computes `anchored` in wide arithmetic.
pub fn anchor_offset(anchor: Align, len: i64, room: i64, near: u32, far: u32) -> (r: i128)
    ensures
        r == anchored(anchor, len as int, room as int, near as int, far as int),
{
    match anchor {
        Align::Start => near as i128,
        Align::Center => half(room as i128 - len as i128) + near as i128 - far as i128,
        Align::End => room as i128 - len as i128 - far as i128,
    }
}

impl Position {
    /// The horizontal anchor; a fixed point has none.
    pub open spec fn spec_horizontal(&self) -> Align {
        match *self {
            Position::Absolute(_) => Align::Start,
            Position::LeftTop(_) | Position::LeftCenter(_) | Position::LeftBottom(_) => Align::Start,
            Position::CenterTop(_) | Position::Center(_) | Position::CenterBottom(_) => Align::Center,
            Position::RightTop(_) | Position::RightCenter(_) | Position::RightBottom(_) => Align::End,
        }
    }

    /// The vertical anchor; a fixed point has none.
    pub open spec fn spec_vertical(&self) -> Align {
        match *self {
            Position::Absolute(_) => Align::Start,
            Position::LeftTop(_) | Position::CenterTop(_) | Position::RightTop(_) => Align::Start,
            Position::LeftCenter(_) | Position::Center(_) | Position::RightCenter(_) => Align::Center,
            Position::LeftBottom(_) | Position::CenterBottom(_) | Position::RightBottom(_) => Align::End,
        }
    }

    /// The offset carried by an anchored position, none for a fixed point.
    pub open spec fn spec_inset(&self) -> Option<RectOffset> {
        match *self {
            Position::Absolute(_) => None,
            Position::LeftTop(o)
            | Position::LeftCenter(o)
            | Position::LeftBottom(o)
            | Position::CenterTop(o)
            | Position::Center(o)
            | Position::CenterBottom(o)
            | Position::RightTop(o)
            | Position::RightCenter(o)
            | Position::RightBottom(o) => o,
        }
    }

    /// Where a widget of extent `size` lies in a container of extent `cont`,
    /// measured from the container's top-left corner.
    pub open spec fn spec_relative(&self, size: Vec2, cont: Vec2, shift: Option<Vec2>) -> Vec2 {
        let inset = match self.spec_inset() {
            Some(o) => o,
            None => RectOffset { left: 0, right: 0, top: 0, bottom: 0 },
        };
        let moved = match shift {
            Some(s) => s,
            None => Vec2 { x: 0, y: 0 },
        };
        match *self {
            Position::Absolute(p) => Vec2 {
                x: saturated(p.x + moved.x) as i64,
                y: saturated(p.y + moved.y) as i64,
            },
            _ => Vec2 {
                x: saturated(
                    anchored(
                        self.spec_horizontal(),
                        size.x as int,
                        cont.x as int,
                        inset.left as int,
                        inset.right as int,
                    ) + moved.x,
                ) as i64,
                y: saturated(
                    anchored(
                        self.spec_vertical(),
                        size.y as int,
                        cont.y as int,
                        inset.top as int,
                        inset.bottom as int,
                    ) + moved.y,
                ) as i64,
            },
        }
    }

    #[verifier::when_used_as_spec(spec_horizontal)]
    pub fn horizontal(&self) -> (a: Align)
        ensures
            a == self.spec_horizontal(),
    {
        match self {
            Position::Absolute(_) => Align::Start,
            Position::LeftTop(_) | Position::LeftCenter(_) | Position::LeftBottom(_) => Align::Start,
            Position::CenterTop(_) | Position::Center(_) | Position::CenterBottom(_) => Align::Center,
            Position::RightTop(_) | Position::RightCenter(_) | Position::RightBottom(_) => Align::End,
        }
    }

    #[verifier::when_used_as_spec(spec_vertical)]
    pub fn vertical(&self) -> (a: Align)
        ensures
            a == self.spec_vertical(),
    {
        match self {
            Position::Absolute(_) => Align::Start,
            Position::LeftTop(_) | Position::CenterTop(_) | Position::RightTop(_) => Align::Start,
            Position::LeftCenter(_) | Position::Center(_) | Position::RightCenter(_) => Align::Center,
            Position::LeftBottom(_) | Position::CenterBottom(_) | Position::RightBottom(_) => Align::End,
        }
    }

    #[verifier::when_used_as_spec(spec_inset)]
    pub fn inset(&self) -> (o: Option<RectOffset>)
        ensures
            o == self.spec_inset(),
    {
        match self {
            Position::Absolute(_) => None,
            Position::LeftTop(o) => *o,
            Position::LeftCenter(o) => *o,
            Position::LeftBottom(o) => *o,
            Position::CenterTop(o) => *o,
            Position::Center(o) => *o,
            Position::CenterBottom(o) => *o,
            Position::RightTop(o) => *o,
            Position::RightCenter(o) => *o,
            Position::RightBottom(o) => *o,
        }
    }

    /// Resolves the position of a widget of extent `size` in a container of extent
    /// `cont`; `shift` is added to the result.
    #[verifier::when_used_as_spec(spec_relative)]
    pub fn relative(&self, size: Vec2, cont: Vec2, shift: Option<Vec2>) -> (p: Vec2)
        ensures
            p == self.spec_relative(size, cont, shift),
    {
        let inset = match self.inset() {
            Some(o) => o,
            None => RectOffset { left: 0, right: 0, top: 0, bottom: 0 },
        };
        let moved = match shift {
            Some(s) => s,
            None => Vec2 { x: 0, y: 0 },
        };
        match self {
            Position::Absolute(p) => Vec2 {
                x: saturate(p.x as i128 + moved.x as i128),
                y: saturate(p.y as i128 + moved.y as i128),
            },
            _ => {
                let dx = anchor_offset(self.horizontal(), size.x, cont.x, inset.left, inset.right);
                let dy = anchor_offset(self.vertical(), size.y, cont.y, inset.top, inset.bottom);
                Vec2 { x: saturate(dx + moved.x as i128), y: saturate(dy + moved.y as i128) }
            },
        }
    }
}

impl Default for Position {
    fn default() -> (p: Self)
        ensures
            p == Position::LeftTop(None),
    {
        Position::LeftTop(None)
    }
}

} // verus!
