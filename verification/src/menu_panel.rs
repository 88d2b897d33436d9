//! A panel that keeps its place relative to the surface when the surface
//! changes size, with a content area inside its margins.
use crate::frame::Texture;
use crate::geometry::{floored, saturate, saturated, Position, RectOffset, Vec2};
use vstd::prelude::*;

verus! {

/// A relatively positioned panel with a background image.
#[derive(Clone, Copy, Debug)]
pub struct Panel {
    pub id: u64,
    pub size: Vec2,
    pub background: Texture,
    pub margin: RectOffset,
    pub position: Position,
}

/// Where a panel and its content area go on a surface.
#[derive(Clone, Copy, Debug, PartialEq, Eq, Structural)]
pub struct PanelGeometry {
    /// Top-left corner of the background.
    pub bg_position: Vec2,
    /// Extent of the content area: the panel less its margins, and nothing
    /// where the margins take it all.
    pub group_size: Vec2,
    /// Top-left corner of the content area.
    pub group_position: Vec2,
}

/// What is left of `extent` between two margins, 0 where they take it all.
fn inner_extent(extent: i64, near: u32, far: u32) -> (r: i64)
    ensures
        r == floored(extent - near - far),
{
    let left: i128 = extent as i128 - near as i128 - far as i128;
    if left < 0 {
        0
    } else {
        left as i64
    }
}

impl Panel {
    /// Create a new panel instance: no margins, placed at the top-left corner.
    pub fn new(id: u64, size: Vec2, panel_bg: Texture) -> (p: Self)
        ensures
            p == (Panel {
                id,
                size,
                background: panel_bg,
                margin: RectOffset { left: 0, right: 0, top: 0, bottom: 0 },
                position: Position::LeftTop(None),
            }),
    {
        Panel {
            id,
            size,
            background: panel_bg,
            margin: RectOffset { left: 0, right: 0, top: 0, bottom: 0 },
            position: Position::default(),
        }
    }

    /// Reduce content size to the given rectangle of the full panel.
    pub fn margin(self, margin: RectOffset) -> (p: Self)
        ensures
            p == (Panel { margin, ..self }),
    {
        Panel { margin, ..self }
    }

    /// Return the size of the panel.
    pub fn size(&self) -> (s: Vec2)
        ensures
            s == self.size,
    {
        self.size
    }

    /// Configure the position of the panel on the screen.
    pub fn position(&mut self, pos: Position)
        ensures
            *final(self) == (Panel { position: pos, ..*old(self) }),
    {
        self.position = pos;
    }

    /// The geometry of the panel on a surface of extent `screen`. The content
    /// area is never negative: margins wider than the panel leave none.
    pub open spec fn spec_ui(&self, screen: Vec2) -> PanelGeometry {
        let bg = self.position.spec_relative(self.size, screen, None);
        PanelGeometry {
            bg_position: bg,
            group_size: Vec2 {
                x: floored(self.size.x - self.margin.left - self.margin.right) as i64,
                y: floored(self.size.y - self.margin.top - self.margin.bottom) as i64,
            },
            group_position: Vec2 {
                x: saturated(bg.x + self.margin.left) as i64,
                y: saturated(bg.y + self.margin.top) as i64,
            },
        }
    }

    /// Lays the panel out on a surface of extent `screen`: the background at the
    /// configured position, the content area inside the margins.
    #[verifier::when_used_as_spec(spec_ui)]
    pub fn ui(&self, screen: Vec2) -> (g: PanelGeometry)
        ensures
            g == self.spec_ui(screen),
            g.group_size.x >= 0,
            g.group_size.y >= 0,
    {
        let bg = self.position.relative(self.size, screen, None);
        PanelGeometry {
            bg_position: bg,
            group_size: Vec2 {
                x: inner_extent(self.size.x, self.margin.left, self.margin.right),
                y: inner_extent(self.size.y, self.margin.top, self.margin.bottom),
            },
            group_position: Vec2 {
                x: saturate(bg.x as i128 + self.margin.left as i128),
                y: saturate(bg.y as i128 + self.margin.top as i128),
            },
        }
    }
}

} // verus!
