//! Frame properties of a widget: fill colour and background images, and the
//! choice of what to draw under the pointer.
use crate::geometry::{Color, Rect, Vec2};
use vstd::prelude::*;

verus! {

/// Names an image that the host keeps.
#[derive(Clone, Copy, Debug, PartialEq, Eq, Structural)]
pub struct Texture(pub u64);

/// What a widget reports of the pointer for the current frame.
#[derive(Clone, Copy, Debug, PartialEq, Eq, Structural)]
pub struct Response {
    pub clicked: bool,
    pub hovered: bool,
}

/// Fill colour and background images of a widget.
#[derive(Clone, Copy, Debug, PartialEq, Eq, Structural)]
pub struct Frame {
    /// Colour to fill the frame with.
    pub fill: Color,
    /// Background image at rest.
    pub image: Option<Texture>,
    /// Background image while clicked.
    pub image_clk: Option<Texture>,
    /// Background image while hovered.
    pub image_hov: Option<Texture>,
}

/// The point lies inside the rectangle; the right and bottom edges are outside.
pub open spec fn inside(rect: Rect, point: Vec2) -> bool {
    rect.pos.x <= point.x && point.x < rect.pos.x + rect.size.x && rect.pos.y <= point.y && point.y
        < rect.pos.y + rect.size.y
}

/// Computes `inside`.
pub fn contains(rect: Rect, point: Vec2) -> (r: bool)
    ensures
        r == inside(rect, point),
{
    rect.pos.x <= point.x && (point.x as i128) < rect.pos.x as i128 + rect.size.x as i128 && rect.pos.y
        <= point.y && (point.y as i128) < rect.pos.y as i128 + rect.size.y as i128
}

/// What an interactive widget at `rect` reports for a pointer at `pointer`: it is
/// hovered while the pointer is inside, and clicked if the pointer was also
/// pressed in this frame. A widget that does not interact reports neither.
pub open spec fn response_for(interact: bool, rect: Rect, pointer: Vec2, pressed: bool) -> Response {
    Response {
        clicked: interact && inside(rect, pointer) && pressed,
        hovered: interact && inside(rect, pointer),
    }
}

/// Computes `response_for`.
pub fn respond(interact: bool, rect: Rect, pointer: Vec2, pressed: bool) -> (r: Response)
    ensures
        r == response_for(interact, rect, pointer, pressed),
{
    let hovered = interact && contains(rect, pointer);
    Response { clicked: hovered && pressed, hovered }
}

impl Frame {
    /// The image to draw for a response: the clicked image on a click where one
    /// is set, else the hovered image under the pointer where one is set, else
    /// the image at rest.
    pub open spec fn spec_pick_image(&self, response: Response) -> Option<Texture> {
        if response.clicked && self.image_clk is Some {
            self.image_clk
        } else if response.hovered && self.image_hov is Some {
            self.image_hov
        } else {
            self.image
        }
    }

    /// A grey frame without images.
    pub fn new() -> (f: Self)
        ensures
            f == (Frame {
                fill: Color { r: 130, g: 130, b: 130, a: 255 },
                image: None,
                image_clk: None,
                image_hov: None,
            }),
    {
        Frame { fill: Color::gray(), image: None, image_clk: None, image_hov: None }
    }

    /// Set the fill colour.
    pub fn with_fill(self, color: Color) -> (f: Self)
        ensures
            f == (Frame { fill: color, ..self }),
    {
        Frame { fill: color, ..self }
    }

    /// Set the background image to use at rest.
    pub fn with_image(self, image: Option<Texture>) -> (f: Self)
        ensures
            f == (Frame { image, ..self }),
    {
        Frame { image, ..self }
    }

    /// Set the background image to use while clicked.
    pub fn with_image_clk(self, image: Option<Texture>) -> (f: Self)
        ensures
            f == (Frame { image_clk: image, ..self }),
    {
        Frame { image_clk: image, ..self }
    }

    /// Set the background image to use while hovered.
    pub fn with_image_hov(self, image: Option<Texture>) -> (f: Self)
        ensures
            f == (Frame { image_hov: image, ..self }),
    {
        Frame { image_hov: image, ..self }
    }

    /// Get the fill colour.
    pub fn fill(&self) -> (c: Color)
        ensures
            c == self.fill,
    {
        self.fill
    }

    /// Set the fill colour in place.
    pub fn set_fill(&mut self, color: Color)
        ensures
            *final(self) == (Frame { fill: color, ..*old(self) }),
    {
        self.fill = color;
    }

    /// Whether the fill is drawn at all: a fully transparent one is not.
    pub fn fills(&self) -> (r: bool)
        ensures
            r == (self.fill.a > 0),
    {
        self.fill.a > 0
    }

    /// Chooses the image to draw for a response.
    #[verifier::when_used_as_spec(spec_pick_image)]
    pub fn pick_image(&self, response: Response) -> (t: Option<Texture>)
        ensures
            t == self.spec_pick_image(response),
    {
        if response.clicked && self.image_clk.is_some() {
            self.image_clk
        } else if response.hovered && self.image_hov.is_some() {
            self.image_hov
        } else {
            self.image
        }
    }
}

} // verus!
