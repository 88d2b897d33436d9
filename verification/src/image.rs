//! Image widget is composed from the Panel widget.
//!
//! It is a panel whose frame carries an image at rest and, optionally, one for
//! the clicked and one for the hovered state.
use crate::frame::{Frame, Texture};
use crate::layout::Layout;
use crate::layout_tree::LayoutTree;
use crate::panel::{Drawn, Panel};
use vstd::prelude::*;

verus! {

/// A panel that shows an image.
#[derive(Debug)]
pub struct Image {
    pub panel: Panel,
}

impl Image {
    /// An image widget over a fresh panel.
    pub fn new(id: &str, image: Texture) -> (w: Self)
        ensures
            w.panel.frame == (Frame { image: Some(image), ..Panel::new_frame() }),
            w.panel.layout.id@ == id@,
            !w.panel.interact,
    {
        let panel = Panel::new(id);
        let frame = panel.frame.with_image(Some(image));
        Image { panel: Panel { frame, layout: panel.layout, interact: panel.interact } }
    }

    /// A widget configured like this one, under another identifier and with
    /// another image at rest.
    pub fn build(&self, id: &str, image: Texture) -> (w: Self)
        ensures
            w.panel.frame == (Frame { image: Some(image), ..self.panel.frame }),
            w.panel.interact == self.panel.interact,
            w.panel.layout.id@ == id@,
            w.panel.layout == (Layout { id: w.panel.layout.id, ..self.panel.layout }),
    {
        let panel = self.panel.build(id);
        let frame = panel.frame.with_image(Some(image));
        Image { panel: Panel { frame, layout: panel.layout, interact: panel.interact } }
    }

    /// Set the widget's frame properties.
    pub fn frame<F: FnOnce(Frame) -> Frame>(self, f: F) -> (w: Self)
        requires
            f.requires((self.panel.frame,)),
        ensures
            f.ensures((self.panel.frame,), w.panel.frame),
            w.panel.layout == self.panel.layout,
            w.panel.interact == self.panel.interact,
    {
        Image { panel: self.panel.with_frame(f) }
    }

    /// Set the widget's id.
    pub fn id(self, id: &str) -> (w: Self)
        ensures
            w.panel.layout.id@ == id@,
            w.panel.layout == (Layout { id: w.panel.layout.id, ..self.panel.layout }),
            w.panel.frame == self.panel.frame,
            w.panel.interact == self.panel.interact,
    {
        Image {
            panel: Panel {
                frame: self.panel.frame,
                layout: self.panel.layout.with_id(id),
                interact: self.panel.interact,
            },
        }
    }

    /// Set the image to use at rest.
    pub fn image(self, image: Texture) -> (w: Self)
        ensures
            w.panel == (Panel { frame: Frame { image: Some(image), ..self.panel.frame }, ..self.panel }),
    {
        let frame = self.panel.frame.with_image(Some(image));
        Image { panel: Panel { frame, layout: self.panel.layout, interact: self.panel.interact } }
    }

    /// Set the image to use while clicked.
    pub fn image_clk(self, image: Texture) -> (w: Self)
        ensures
            w.panel == (Panel { frame: Frame { image_clk: Some(image), ..self.panel.frame }, ..self.panel }),
    {
        let frame = self.panel.frame.with_image_clk(Some(image));
        Image { panel: Panel { frame, layout: self.panel.layout, interact: self.panel.interact } }
    }

    /// Set the image to use while hovered.
    pub fn image_hov(self, image: Texture) -> (w: Self)
        ensures
            w.panel == (Panel { frame: Frame { image_hov: Some(image), ..self.panel.frame }, ..self.panel }),
    {
        let frame = self.panel.frame.with_image_hov(Some(image));
        Image { panel: Panel { frame, layout: self.panel.layout, interact: self.panel.interact } }
    }

    /// Enable listening for click interactions.
    pub fn interact(self) -> (w: Self)
        ensures
            w.panel == (Panel { interact: true, ..self.panel }),
    {
        Image { panel: self.panel.interact() }
    }

    /// Disable listening for click interactions.
    pub fn no_interact(self) -> (w: Self)
        ensures
            w.panel == (Panel { interact: false, ..self.panel }),
    {
        Image { panel: self.panel.no_interact() }
    }

    /// Set the widget's layout properties.
    pub fn layout<F: FnOnce(Layout) -> Layout>(self, f: F) -> (w: Self)
        requires
            f.requires((self.panel.layout,)),
        ensures
            f.ensures((self.panel.layout,), w.panel.layout),
            w.panel.frame == self.panel.frame,
            w.panel.interact == self.panel.interact,
    {
        Image { panel: self.panel.with_layout(f) }
    }

    /// A copy of the widget's layout.
    pub fn layout_ptr(&self) -> (l: Layout)
        ensures
            l == self.panel.layout,
    {
        self.panel.layout()
    }

    /// Shows the widget inside the node `parent` of `tree`, as its panel does.
    pub fn show_p(&self, tree: &mut LayoutTree, parent: usize) -> (d: Drawn)
        requires
            old(tree).wf(),
            parent < old(tree).nodes@.len(),
        ensures
            final(tree).wf(),
            self.panel.shown(*old(tree), *final(tree), Some(parent), d),
    {
        self.panel.show_p(tree, parent)
    }
}

impl Default for Image {
    fn default() -> (w: Self)
        ensures
            w.panel.frame == Panel::new_frame(),
            w.panel.layout.id@ == Seq::<char>::empty(),
            !w.panel.interact,
    {
        let panel = Panel::default();
        Image { panel }
    }
}

} // verus!
