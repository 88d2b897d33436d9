//! What holds of panels shown in a layout tree.
use crate::geometry::saturated;
use crate::layout_facts::{lemma_child_start, outer_total};
use crate::layout_rules::{
    child_ok, inner_of, lead, named_among, named_child, parent_ok, pick, root_among, Node,
};
use crate::layout_tree::{lemma_named_in_range, LayoutTree};
use crate::panel::{Drawn, Panel};
use vstd::prelude::*;

verus! {

/// The search for a root by its identifier reads parents and identifiers of
/// the nodes searched only.
proof fn lemma_root_frame(a: Seq<Node>, b: Seq<Node>, id: Seq<char>, n: int)
    requires
        n <= a.len(),
        n <= b.len(),
        forall|i: int| 0 <= i < n ==> a[i] == b[i],
    ensures
        root_among(a, id, n) == root_among(b, id, n),
    decreases n,
{
    if n > 0 {
        lemma_root_frame(a, b, id, n - 1);
    }
}

/// The search for a child by its identifier reads the identifiers of the
/// children searched only.
proof fn lemma_named_frame(
    a: Seq<Node>,
    b: Seq<Node>,
    kids_a: Seq<usize>,
    kids_b: Seq<usize>,
    id: Seq<char>,
    n: int,
)
    requires
        n <= kids_a.len(),
        n <= kids_b.len(),
        forall|i: int| 0 <= i < n ==> kids_a[i] == kids_b[i] && a[kids_a[i] as int].conf.id@ == b[kids_b[i] as int].conf.id@,
    ensures
        named_among(a, kids_a, id, n) == named_among(b, kids_b, id, n),
    decreases n,
{
    if n > 0 {
        lemma_named_frame(a, b, kids_a, kids_b, id, n - 1);
    }
}

/// Once a panel was shown, it stands in the tree at the node it was given.
pub proof fn lemma_shown_stands(p: &Panel, before: LayoutTree, after: LayoutTree, parent: Option<usize>, d: Drawn)
    requires
        before.wf(),
        parent is Some ==> parent->0 < before.nodes@.len(),
        p.shown(before, after, parent, d),
    ensures
        p.standing_node(after, parent) == Some(d.node as int),
{
    let id = p.layout.id@;
    let n = before.nodes@.len() as int;
    if p.standing_node(before, parent) is None {
        match parent {
            None => {
                lemma_root_frame(before.nodes@, after.nodes@, id, n);
            },
            Some(q) => {
                let kids = before.nodes@[q as int].children@;
                assert forall|i: int| 0 <= i < kids.len() implies kids[i] == after.nodes@[q as int].children@[i]
                    && before.nodes@[kids[i] as int].conf.id@ == after.nodes@[after.nodes@[q as int].children@[i] as int].conf.id@ by {
                    assert(child_ok(before.nodes@, q as int, i));
                }
                lemma_named_frame(
                    before.nodes@,
                    after.nodes@,
                    kids,
                    after.nodes@[q as int].children@,
                    id,
                    kids.len() as int,
                );
            },
        }
    }
}

/// Showing a panel a second time, with nothing changed in between, leaves the
/// tree as the first showing left it and draws the same rectangle.
pub proof fn lemma_shown_again(
    p: &Panel,
    first: LayoutTree,
    second: LayoutTree,
    third: LayoutTree,
    parent: Option<usize>,
    d1: Drawn,
    d2: Drawn,
)
    requires
        first.wf(),
        parent is Some ==> parent->0 < first.nodes@.len(),
        p.shown(first, second, parent, d1),
        p.shown(second, third, parent, d2),
    ensures
        third == second,
        d2 == d1,
{
    lemma_shown_stands(p, first, second, parent, d1);
}

/// A panel shown inside a parent with a forward flow is drawn, along the flow,
/// at the parent's position plus the near padding, the outer extents of the
/// children before it, one gap for each of them and its own near margin, held
/// to the range of a coordinate.
pub proof fn lemma_shown_child_start(p: &Panel, before: LayoutTree, after: LayoutTree, q: usize, d: Drawn)
    requires
        before.wf(),
        after.wf(),
        q < before.nodes@.len(),
        p.shown(before, after, Some(q), d),
        !after.nodes@[q as int].conf.mode.is_reverse(),
    ensures
        ({
            let nodes = after.nodes@;
            let horizontal = nodes[q as int].conf.mode.is_horizontal();
            let k = nodes[d.node as int].slot as int;
            let inner = inner_of(after.sizes@[q as int], nodes[q as int].conf.padding);
            &&& nodes[d.node as int].parent == Some(q)
            &&& 0 <= k < nodes[q as int].children@.len()
            &&& nodes[q as int].children@[k] == d.node
            &&& pick(d.rect.pos, horizontal) == saturated(
                pick(after.places@[q as int], horizontal) + lead(nodes[q as int].conf.padding, horizontal)
                    + outer_total(nodes, after.natural@, q as int, k, inner) + k * nodes[q as int].conf.spacing
                    + lead(nodes[d.node as int].conf.margin, horizontal),
            )
        }),
{
    let found = named_child(before.nodes@, q as int, p.layout.id@);
    if found is Some {
        let kids = before.nodes@[q as int].children@;
        lemma_named_in_range(before.nodes@, kids, p.layout.id@, kids.len() as int);
        assert(child_ok(before.nodes@, q as int, found->0));
    }
    assert(parent_ok(after.nodes@, d.node as int));
    lemma_child_start(&after, q as int, after.nodes@[d.node as int].slot as int);
}

} // verus!
