//! Panel provides a container widget with options for framing and layout.
use crate::frame::Frame;
use crate::geometry::{Color, Rect};
use crate::layout::Layout;
use crate::layout_rules::{child_put, named_child, named_root, root_put};
use crate::layout_tree::LayoutTree;
use vstd::prelude::*;

verus! {

/// A container with a frame and a layout.
#[derive(Debug)]
pub struct Panel {
    pub frame: Frame,
    pub layout: Layout,
    /// The panel listens for the pointer.
    pub interact: bool,
}

/// What the host is to draw for a panel, and the node that stands for it.
#[derive(Clone, Copy, Debug, PartialEq, Eq, Structural)]
pub struct Drawn {
    /// The panel's node in the layout tree.
    pub node: usize,
    /// Where to draw.
    pub rect: Rect,
    /// The colour to fill the rectangle with.
    pub fill: Color,
}

impl Panel {
    /// The frame of a new panel: grey, without images.
    pub open spec fn new_frame() -> Frame {
        Frame { fill: Color { r: 130, g: 130, b: 130, a: 255 }, image: None, image_clk: None, image_hov: None }
    }

    /// A grey panel that lays out its children from left to right.
    pub fn new(id: &str) -> (p: Self)
        ensures
            p.frame == Panel::new_frame(),
            p.layout.id@ == id@,
            p.layout.mode == crate::layout::Mode::LeftToRight,
            p.layout.size == crate::geometry::Size::Unset,
            p.layout.spacing == 0,
            !p.interact,
    {
        Panel { frame: Frame::new(), layout: Layout::horz(id), interact: false }
    }

    /// A panel with the same frame, layout and interaction under another identifier.
    pub fn build(&self, id: &str) -> (p: Self)
        ensures
            p.frame == self.frame,
            p.interact == self.interact,
            p.layout.id@ == id@,
            p.layout == (Layout { id: p.layout.id, ..self.layout }),
    {
        Panel { frame: self.frame, layout: self.layout.duplicate().with_id(id), interact: self.interact }
    }

    /// Set the frame's properties.
    pub fn with_frame<F: FnOnce(Frame) -> Frame>(self, f: F) -> (p: Self)
        requires
            f.requires((self.frame,)),
        ensures
            f.ensures((self.frame,), p.frame),
            p.layout == self.layout,
            p.interact == self.interact,
    {
        Panel { frame: f(self.frame), layout: self.layout, interact: self.interact }
    }

    /// Set layout to use.
    pub fn with_layout<F: FnOnce(Layout) -> Layout>(self, f: F) -> (p: Self)
        requires
            f.requires((self.layout,)),
        ensures
            f.ensures((self.layout,), p.layout),
            p.frame == self.frame,
            p.interact == self.interact,
    {
        Panel { frame: self.frame, layout: f(self.layout), interact: self.interact }
    }

    /// Listen for the pointer.
    pub fn interact(self) -> (p: Self)
        ensures
            p == (Panel { interact: true, ..self }),
    {
        Panel { interact: true, ..self }
    }

    /// Do not listen for the pointer.
    pub fn no_interact(self) -> (p: Self)
        ensures
            p == (Panel { interact: false, ..self }),
    {
        Panel { interact: false, ..self }
    }

    /// Get the frame's properties.
    pub fn frame(&self) -> (f: Frame)
        ensures
            f == self.frame,
    {
        self.frame
    }

    /// Get a copy of the layout.
    pub fn layout(&self) -> (l: Layout)
        ensures
            l == self.layout,
    {
        self.layout.duplicate()
    }

    /// Set the frame's properties in place.
    pub fn set_frame<F: FnOnce(Frame) -> Frame>(&mut self, f: F)
        requires
            f.requires((old(self).frame,)),
        ensures
            f.ensures((old(self).frame,), final(self).frame),
            final(self).layout == old(self).layout,
            final(self).interact == old(self).interact,
    {
        self.frame = f(self.frame);
    }

    /// The node that stands for the panel in `tree` already: among the roots, or
    /// among the children of `parent`, the first that carries its identifier.
    pub open spec fn standing_node(&self, tree: LayoutTree, parent: Option<usize>) -> Option<int> {
        match parent {
            None => named_root(tree.nodes@, self.layout.id@),
            Some(q) => match named_child(tree.nodes@, q as int, self.layout.id@) {
                Some(k) => Some(tree.nodes@[q as int].children@[k] as int),
                None => None,
            },
        }
    }

    /// The node that showing the panel gives it in `tree`: the one that stands
    /// for it already, else a new node.
    pub open spec fn shown_node(&self, tree: LayoutTree, parent: Option<usize>) -> int {
        match self.standing_node(tree, parent) {
            Some(j) => j,
            None => tree.nodes@.len() as int,
        }
    }

    /// What showing the panel makes of a tree, and what comes back.
    ///
    /// The nodes are those of `before` with the panel's layout put among the
    /// roots or among the children of `parent`: a node that stands for the panel
    /// already is kept and nothing is added; else one node is added and no other
    /// node changes, but for the child list of the parent. `after` is resolved
    /// over the same surface. Where the panel stood in the tree already, geometry
    /// that satisfied the equations is kept as it was, and a tree that was not
    /// stale is not touched at all. The rectangle that comes back is the node's
    /// resolved shape, with the frame's fill.
    pub open spec fn shown(&self, before: LayoutTree, after: LayoutTree, parent: Option<usize>, d: Drawn) -> bool {
        &&& after.is_resolved()
        &&& !after.dirty
        &&& after.screen == before.screen
        &&& d.node == self.shown_node(before, parent)
        &&& d.node < after.nodes@.len()
        &&& match parent {
            None => root_put(before.nodes@, after.nodes@, self.layout, d.node as int),
            Some(q) => child_put(before.nodes@, after.nodes@, q as int, self.layout, d.node as int),
        }
        &&& self.standing_node(before, parent) is Some ==> {
            &&& after.nodes == before.nodes
            &&& !before.dirty ==> after == before
            &&& before.is_resolved() ==> after.natural@ == before.natural@ && after.sizes@ == before.sizes@
                && after.places@ == before.places@
        }
        &&& d.rect == (Rect { pos: after.places@[d.node as int], size: after.sizes@[d.node as int] })
        &&& d.fill == self.frame.fill
    }

    /// Shows the panel as a root of `tree`.
    pub fn show(&self, tree: &mut LayoutTree) -> (d: Drawn)
        requires
            old(tree).wf(),
        ensures
            final(tree).wf(),
            self.shown(*old(tree), *final(tree), None, d),
    {
        self.show_pf(tree, None)
    }

    /// Shows the panel inside the node `parent` of `tree`.
    pub fn show_p(&self, tree: &mut LayoutTree, parent: usize) -> (d: Drawn)
        requires
            old(tree).wf(),
            parent < old(tree).nodes@.len(),
        ensures
            final(tree).wf(),
            self.shown(*old(tree), *final(tree), Some(parent), d),
    {
        self.show_pf(tree, Some(parent))
    }

    /// Shows the panel in `tree`, as a root or inside the node `parent`.
    ///
    /// The panel's layout is put among the roots, or among the children of the
    /// parent, unless a node with its identifier stands there already: showing
    /// a panel again, frame after frame, adds nothing. The tree is then
    /// resolved where needed, and the rectangle to fill comes back with the
    /// node that stands for the panel, under which the caller shows the panel's
    /// own children.
    pub fn show_pf(&self, tree: &mut LayoutTree, parent: Option<usize>) -> (d: Drawn)
        requires
            old(tree).wf(),
            parent is Some ==> parent->0 < old(tree).nodes@.len(),
        ensures
            final(tree).wf(),
            self.shown(*old(tree), *final(tree), parent, d),
    {
        let node = match parent {
            None => {
                proof {
                    if named_root(tree.nodes@, self.layout.id@) is Some {
                        crate::layout_tree::lemma_root_in_range(
                            tree.nodes@,
                            self.layout.id@,
                            tree.nodes@.len() as int,
                        );
                    }
                }
                tree.subs_root(self.layout.duplicate())
            },
            Some(q) => {
                let ghost kids = tree.nodes@[q as int].children@;
                let ghost found = named_child(tree.nodes@, q as int, self.layout.id@);
                proof {
                    if found is Some {
                        crate::layout_tree::lemma_named_in_range(
                            tree.nodes@,
                            kids,
                            self.layout.id@,
                            kids.len() as int,
                        );
                        assert(crate::layout_rules::child_ok(tree.nodes@, q as int, found->0));
                    }
                }
                tree.subs_append(q, self.layout.duplicate())
            },
        };
        let (pos, size) = tree.shape(node);
        Drawn { node, rect: Rect { pos, size }, fill: self.frame.fill }
    }
}

impl Default for Panel {
    fn default() -> (p: Self)
        ensures
            p.frame == Panel::new_frame(),
            p.layout.id@ == Seq::<char>::empty(),
            p.layout.mode == crate::layout::Mode::LeftToRight,
            !p.interact,
    {
        let p = Panel { frame: Frame::new(), layout: Layout::horz(""), interact: false };
        proof {
            reveal_strlit("");
            assert(p.layout.id@ =~= Seq::<char>::empty());
        }
        p
    }
}

} // verus!
