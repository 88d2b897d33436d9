//! Label keeps the configuration of a text label and places it in its container.
use crate::geometry::{Color, Position, Rect, RectOffset, Size, Vec2};
use crate::scaling::{scale, DEFAULT_FONT_SIZE};
use vstd::prelude::*;

verus! {

/// LabelBuilder preserves widget configuration, so that new labels can be made
/// from it again and again without configuring each one.
#[derive(Clone, Copy, Debug)]
pub struct LabelBuilder {
    /// Sizing of the widget.
    pub size: Option<Size>,
    /// Position of the widget.
    pub position: Position,
    /// Font to use for the text.
    pub font: Option<&'static [u8]>,
    /// Font colour to use for the text.
    pub font_color: Color,
    /// Font size to use for the text.
    pub font_size: u16,
    /// Space to allow around the widget's content.
    pub margin: RectOffset,
}

/// What the host builds a label's skin from.
#[derive(Clone, Copy, Debug)]
pub struct Skin {
    pub font: Option<&'static [u8]>,
    pub font_color: Color,
    pub font_size: u16,
}

/// A text label.
#[derive(Debug)]
pub struct Label {
    /// A skin update is needed.
    pub dirty: bool,
    /// The skin to use.
    pub skin: Option<Skin>,
    /// The widget's configuration.
    pub conf: LabelBuilder,
    /// The text to display.
    pub text: String,
    /// The measured size of the text.
    pub calc_size: Vec2,
}

impl LabelBuilder {
    /// Create a new builder instance: centred, black, default font.
    pub fn new() -> (b: Self)
        ensures
            b.size is None,
            b.position == Position::Center(Some(RectOffset { left: 0, right: 0, top: 0, bottom: 0 })),
            b.font is None,
            b.font_color == (Color { r: 0, g: 0, b: 0, a: 255 }),
            b.font_size == DEFAULT_FONT_SIZE,
            b.margin == (RectOffset { left: 0, right: 0, top: 0, bottom: 0 }),
    {
        LabelBuilder {
            size: None,
            position: Position::Center(Some(RectOffset::default())),
            font: None,
            font_size: scale_font(DEFAULT_FONT_SIZE),
            font_color: Color::black(),
            margin: RectOffset::default(),
        }
    }

    /// Create a new widget instance from this builder.
    pub fn build(&self, text: &str) -> (l: Label)
        ensures
            l.dirty,
            l.skin is None,
            l.conf == *self,
            l.text@ == text@,
            l.calc_size == (Vec2 { x: 0, y: 0 }),
    {
        Label { dirty: true, conf: *self, skin: None, text: text.to_owned(), calc_size: Vec2 { x: 0, y: 0 } }
    }
}

/// A font size after scaling, held to the range of a font size.
pub open spec fn scaled_font(size: u16) -> u16 {
    if crate::scaling::scaled(size as int) > u16::MAX {
        u16::MAX
    } else {
        crate::scaling::scaled(size as int) as u16
    }
}

/// Computes `scaled_font`.
pub fn scale_font(size: u16) -> (r: u16)
    ensures
        r == scaled_font(size),
{
    let v: u32 = scale(size as u32);
    if v > u16::MAX as u32 {
        u16::MAX
    } else {
        v as u16
    }
}

impl Label {
    /// Create a new widget instance.
    pub fn new(text: &str) -> (l: Self)
        ensures
            l.dirty,
            l.skin is None,
            l.conf.size is None,
            l.conf.position == Position::Center(Some(RectOffset { left: 0, right: 0, top: 0, bottom: 0 })),
            l.conf.font is None,
            l.conf.font_color == (Color { r: 0, g: 0, b: 0, a: 255 }),
            l.conf.font_size == DEFAULT_FONT_SIZE,
            l.conf.margin == (RectOffset { left: 0, right: 0, top: 0, bottom: 0 }),
            l.text@ == text@,
            l.calc_size == (Vec2 { x: 0, y: 0 }),
    {
        Label {
            dirty: true,
            skin: None,
            conf: LabelBuilder::new(),
            text: text.to_owned(),
            calc_size: Vec2 { x: 0, y: 0 },
        }
    }

    /// Set the size of the widget.
    pub fn with_size(self, size: Option<Size>) -> (l: Self)
        ensures
            l == (Label { conf: LabelBuilder { size, ..self.conf }, ..self }),
    {
        Label { conf: LabelBuilder { size, ..self.conf }, ..self }
    }

    /// Set position on the screen.
    pub fn with_position(self, position: Position) -> (l: Self)
        ensures
            l == (Label { conf: LabelBuilder { position, ..self.conf }, ..self }),
    {
        Label { conf: LabelBuilder { position, ..self.conf }, ..self }
    }

    /// Set font to use; the skin has to be built again.
    pub fn with_font(self, font: Option<&'static [u8]>) -> (l: Self)
        ensures
            l == (Label { dirty: true, conf: LabelBuilder { font, ..self.conf }, ..self }),
    {
        Label { dirty: true, conf: LabelBuilder { font, ..self.conf }, ..self }
    }

    /// Set font size to use, scaled; the skin has to be built again.
    pub fn with_font_size(self, size: u16) -> (l: Self)
        ensures
            l == (Label {
                dirty: true,
                conf: LabelBuilder { font_size: scaled_font(size), ..self.conf },
                ..self
            }),
    {
        Label { dirty: true, conf: LabelBuilder { font_size: scale_font(size), ..self.conf }, ..self }
    }

    /// Set font colour to use; the skin has to be built again.
    pub fn with_font_color(self, color: Color) -> (l: Self)
        ensures
            l == (Label { dirty: true, conf: LabelBuilder { font_color: color, ..self.conf }, ..self }),
    {
        Label { dirty: true, conf: LabelBuilder { font_color: color, ..self.conf }, ..self }
    }

    /// Get the widget's text value.
    pub fn text(&self) -> (t: &str)
        ensures
            t@ == self.text@,
    {
        self.text.as_str()
    }

    /// The skin that the configuration asks for.
    pub open spec fn wanted_skin(&self) -> Skin {
        Skin { font: self.conf.font, font_color: self.conf.font_color, font_size: self.conf.font_size }
    }

    /// The label after a skin update with a text of measured size `measured`:
    /// untouched unless an update is needed, else with the skin of its
    /// configuration, the measured size and no update pending.
    pub open spec fn spec_update_skin(self, measured: Vec2) -> Label {
        if !self.dirty {
            self
        } else {
            Label { dirty: false, skin: Some(self.wanted_skin()), calc_size: measured, ..self }
        }
    }

    /// Update the skin from the configuration where that is needed; `measured`
    /// is the size the host measured for the text under that skin.
    pub fn update_skin(&mut self, measured: Vec2)
        ensures
            *final(self) == old(self).spec_update_skin(measured),
    {
        if !self.dirty {
            return ;
        }
        self.skin = Some(
            Skin { font: self.conf.font, font_color: self.conf.font_color, font_size: self.conf.font_size },
        );
        self.calc_size = measured;
        self.dirty = false;
    }

    /// Prepares the label for drawing and returns where its text goes.
    /// * `measured` is the size of the text as the host measures it
    /// * `cont_size` is the containing widget's size
    /// * `offset` any positional offset to take into account
    pub fn ui(&mut self, measured: Vec2, cont_size: Vec2, offset: Vec2) -> (r: Rect)
        ensures
            *final(self) == old(self).spec_update_skin(measured),
            r.size == final(self).calc_size,
            r.pos == final(self).conf.position.spec_relative(final(self).calc_size, cont_size, Some(offset)),
    {
        self.update_skin(measured);
        let pos = self.conf.position.relative(self.calc_size, cont_size, Some(offset));
        Rect { pos, size: self.calc_size }
    }
}

} // verus!
