//! What holds of every resolved layout tree.
use crate::geometry::{floored, fraction, saturated, Vec2};
use crate::layout_rules::{
    axis_size, basic_axis, child_axis_size, child_ok, cursor, fill_count, fixed_sum, gaps, inner_of,
    lead, lemma_content_frame, natural_at, parent_ok, pick, shape_at, share, span_of, trail, Node,
};
use crate::layout_tree::LayoutTree;
use vstd::prelude::*;

verus! {

/// A fraction of a length lies between nothing and the length.
pub proof fn lemma_fraction_bounds(len: int, bp: int)
    requires
        0 <= bp,
    ensures
        0 <= fraction(len, bp) <= floored(len),
{
    let base = floored(len);
    let part = if bp > 10000 {
        10000
    } else {
        bp
    };
    assert(0 <= base * part <= base * 10000) by (nonlinear_arith)
        requires
            0 <= base,
            0 <= part <= 10000,
    ;
    assert(0 <= (base * part) / 10000 <= base) by (nonlinear_arith)
        requires
            0 <= base * part <= base * 10000,
    ;
}

/// The extent of a node before remaining space is handed out is never
/// negative and fits a coordinate.
pub proof fn lemma_basic_bounds(nodes: Seq<Node>, natural: Seq<Vec2>, c: int, inner: Vec2, horizontal: bool)
    ensures
        0 <= basic_axis(nodes, natural, c, inner, horizontal) <= i64::MAX,
{
    match nodes[c].conf.size {
        crate::geometry::Size::Percent(pw, ph) => {
            lemma_fraction_bounds(pick(inner, horizontal), pw as int);
            lemma_fraction_bounds(pick(inner, horizontal), ph as int);
        },
        _ => {},
    }
}

/// Fixed space and the number of filling children are never negative.
pub proof fn lemma_fixed_nonnegative(
    nodes: Seq<Node>,
    natural: Seq<Vec2>,
    kids: Seq<usize>,
    k: int,
    inner: Vec2,
    horizontal: bool,
)
    ensures
        0 <= fixed_sum(nodes, natural, kids, k, inner, horizontal),
        0 <= fill_count(nodes, kids, k, horizontal),
    decreases k,
{
    if k > 0 {
        lemma_fixed_nonnegative(nodes, natural, kids, k - 1, inner, horizontal);
        lemma_basic_bounds(nodes, natural, kids[k - 1] as int, inner, horizontal);
    }
}

/// The share of a filling child is never negative and fits a coordinate.
pub proof fn lemma_share_bounds(nodes: Seq<Node>, natural: Seq<Vec2>, p: int, inner: Vec2)
    ensures
        0 <= share(nodes, natural, p, inner) <= i64::MAX,
{
    let node = nodes[p];
    let kids = node.children@;
    let n = kids.len() as int;
    let horizontal = node.conf.mode.is_horizontal();
    let count = fill_count(nodes, kids, n, horizontal);
    lemma_fixed_nonnegative(nodes, natural, kids, n, inner, horizontal);
    if count != 0 {
        let room = floored(
            pick(inner, horizontal) - fixed_sum(nodes, natural, kids, n, inner, horizontal) - gaps(
                n,
                node.conf.spacing as int,
            ),
        );
        assert(0 <= room / count <= room) by (nonlinear_arith)
            requires
                0 <= room,
                1 <= count,
        ;
        assert(0 <= gaps(n, node.conf.spacing as int)) by (nonlinear_arith)
            requires
                0 <= n,
                0 <= node.conf.spacing,
                gaps(n, node.conf.spacing as int) == if n <= 1 {
                    0
                } else {
                    (n - 1) * node.conf.spacing
                },
        ;
    }
}

/// The final extent of a node on either axis is never negative and fits a
/// coordinate, whatever non-negative lot it is given.
pub proof fn lemma_axis_size_bounds(
    nodes: Seq<Node>,
    natural: Seq<Vec2>,
    c: int,
    inner: Vec2,
    horizontal: bool,
    lot: Option<int>,
)
    requires
        lot is Some ==> 0 <= lot->0 <= i64::MAX,
    ensures
        0 <= axis_size(nodes, natural, c, inner, horizontal, lot) <= i64::MAX,
{
    lemma_basic_bounds(nodes, natural, c, inner, horizontal);
}

/// The final extent of a child on either axis is never negative and fits a
/// coordinate.
pub proof fn lemma_child_axis_bounds(
    nodes: Seq<Node>,
    natural: Seq<Vec2>,
    p: int,
    k: int,
    inner: Vec2,
    horizontal: bool,
)
    ensures
        0 <= child_axis_size(nodes, natural, p, k, inner, horizontal) <= i64::MAX,
{
    lemma_share_bounds(nodes, natural, p, inner);
    lemma_axis_size_bounds(
        nodes,
        natural,
        nodes[p].children@[k] as int,
        inner,
        horizontal,
        if nodes[p].conf.mode.is_horizontal() == horizontal {
            Some(share(nodes, natural, p, inner))
        } else {
            None
        },
    );
}

/// In a resolved tree no node has a negative width or height.
pub proof fn lemma_sizes_nonnegative(t: &LayoutTree, j: int)
    requires
        t.wf(),
        t.is_resolved(),
        0 <= j < t.nodes@.len(),
    ensures
        t.sizes@[j].x >= 0,
        t.sizes@[j].y >= 0,
{
    let nodes = t.nodes@;
    assert(shape_at(nodes, t.natural@, t.sizes@, t.places@, t.screen, j));
    match nodes[j].parent {
        None => {
            lemma_axis_size_bounds(nodes, t.natural@, j, t.screen, true, None);
            lemma_axis_size_bounds(nodes, t.natural@, j, t.screen, false, None);
        },
        Some(p) => {
            let inner = inner_of(t.sizes@[p as int], nodes[p as int].conf.padding);
            lemma_child_axis_bounds(nodes, t.natural@, p as int, nodes[j].slot as int, inner, true);
            lemma_child_axis_bounds(nodes, t.natural@, p as int, nodes[j].slot as int, inner, false);
        },
    }
}

/// Outer extents along the flow of the first `k` children of `p`: each child's
/// final extent with its two margins.
pub open spec fn outer_total(nodes: Seq<Node>, natural: Seq<Vec2>, p: int, k: int, inner: Vec2) -> int
    decreases k,
{
    let horizontal = nodes[p].conf.mode.is_horizontal();
    if k <= 0 {
        0
    } else {
        outer_total(nodes, natural, p, k - 1, inner) + child_axis_size(
            nodes,
            natural,
            p,
            k - 1,
            inner,
            horizontal,
        ) + span_of(nodes[nodes[p].children@[k - 1] as int].conf.margin, horizontal)
    }
}

/// The cursor before the `k`-th child is the sum of the outer extents of the
/// children before it and `k` gaps.
pub proof fn lemma_cursor_total(nodes: Seq<Node>, natural: Seq<Vec2>, p: int, k: int, inner: Vec2)
    requires
        0 <= k,
    ensures
        cursor(nodes, natural, p, k, inner) == outer_total(nodes, natural, p, k, inner) + k
            * nodes[p].conf.spacing,
    decreases k,
{
    let s = nodes[p].conf.spacing as int;
    if k > 0 {
        lemma_cursor_total(nodes, natural, p, k - 1, inner);
        assert((k - 1) * s + s == k * s) by (nonlinear_arith);
    } else {
        assert(k * s == 0) by (nonlinear_arith)
            requires
                k == 0,
        ;
    }
}

/// In a resolved tree with a forward flow, the `k`-th child of `p` starts at
/// the parent's position plus the near padding, the outer extents of the
/// children before it, `k` gaps and its own near margin, held to the range of
/// a coordinate.
pub proof fn lemma_child_start(t: &LayoutTree, p: int, k: int)
    requires
        t.wf(),
        t.is_resolved(),
        0 <= p < t.nodes@.len(),
        0 <= k < t.nodes@[p].children@.len(),
        !t.nodes@[p].conf.mode.is_reverse(),
    ensures
        ({
            let nodes = t.nodes@;
            let horizontal = nodes[p].conf.mode.is_horizontal();
            let c = nodes[p].children@[k] as int;
            let inner = inner_of(t.sizes@[p], nodes[p].conf.padding);
            pick(t.places@[c], horizontal) == saturated(
                pick(t.places@[p], horizontal) + lead(nodes[p].conf.padding, horizontal) + outer_total(
                    nodes,
                    t.natural@,
                    p,
                    k,
                    inner,
                ) + k * nodes[p].conf.spacing + lead(nodes[c].conf.margin, horizontal),
            )
        }),
{
    let nodes = t.nodes@;
    let c = nodes[p].children@[k] as int;
    let inner = inner_of(t.sizes@[p], nodes[p].conf.padding);
    assert(child_ok(nodes, p, k));
    assert(shape_at(nodes, t.natural@, t.sizes@, t.places@, t.screen, c));
    lemma_cursor_total(nodes, t.natural@, p, k, inner);
}

/// In a resolved tree with a forward flow and at least one child, the far
/// outer edge of the last child lies at the parent's position plus the near
/// padding, the outer extents of all `n` children and `n - 1` gaps, provided
/// the last child's start fits a coordinate.
pub proof fn lemma_final_cursor(t: &LayoutTree, p: int)
    requires
        t.wf(),
        t.is_resolved(),
        0 <= p < t.nodes@.len(),
        t.nodes@[p].children@.len() >= 1,
        !t.nodes@[p].conf.mode.is_reverse(),
        ({
            let nodes = t.nodes@;
            let horizontal = nodes[p].conf.mode.is_horizontal();
            let n = nodes[p].children@.len() as int;
            let last = nodes[p].children@[n - 1] as int;
            let inner = inner_of(t.sizes@[p], nodes[p].conf.padding);
            let start = pick(t.places@[p], horizontal) + lead(nodes[p].conf.padding, horizontal)
                + outer_total(nodes, t.natural@, p, n - 1, inner) + (n - 1) * nodes[p].conf.spacing
                + lead(nodes[last].conf.margin, horizontal);
            i64::MIN <= start <= i64::MAX
        }),
    ensures
        ({
            let nodes = t.nodes@;
            let horizontal = nodes[p].conf.mode.is_horizontal();
            let n = nodes[p].children@.len() as int;
            let last = nodes[p].children@[n - 1] as int;
            let inner = inner_of(t.sizes@[p], nodes[p].conf.padding);
            pick(t.places@[last], horizontal) + pick(t.sizes@[last], horizontal) + trail(
                nodes[last].conf.margin,
                horizontal,
            ) == pick(t.places@[p], horizontal) + lead(nodes[p].conf.padding, horizontal) + outer_total(
                nodes,
                t.natural@,
                p,
                n,
                inner,
            ) + (n - 1) * nodes[p].conf.spacing
        }),
{
    let nodes = t.nodes@;
    let horizontal = nodes[p].conf.mode.is_horizontal();
    let n = nodes[p].children@.len() as int;
    let last = nodes[p].children@[n - 1] as int;
    let inner = inner_of(t.sizes@[p], nodes[p].conf.padding);
    lemma_child_start(t, p, n - 1);
    assert(child_ok(nodes, p, n - 1));
    assert(shape_at(nodes, t.natural@, t.sizes@, t.places@, t.screen, last));
    lemma_child_axis_bounds(nodes, t.natural@, p, n - 1, inner, horizontal);
    assert(pick(t.sizes@[last], horizontal) == child_axis_size(nodes, t.natural@, p, n - 1, inner, horizontal));
}

/// Two geometries that satisfy the natural-size rule for the same nodes agree
/// on the natural size of every node from `j` on.
proof fn lemma_natural_unique(a: &LayoutTree, b: &LayoutTree, j: int)
    requires
        a.wf(),
        b.wf(),
        a.nodes@ == b.nodes@,
        a.screen == b.screen,
        a.naturals_hold(),
        b.naturals_hold(),
        0 <= j <= a.nodes@.len(),
    ensures
        forall|i: int| j <= i < a.nodes@.len() ==> a.natural@[i] == b.natural@[i],
    decreases a.nodes@.len() - j,
{
    if j < a.nodes@.len() {
        lemma_natural_unique(a, b, j + 1);
        let nodes = a.nodes@;
        let kids = nodes[j].children@;
        assert forall|i: int| 0 <= i < kids.len() implies a.natural@[#[trigger] kids[i] as int]
            == b.natural@[kids[i] as int] by {
            assert(child_ok(nodes, j, i));
        }
        lemma_content_frame(nodes, a.natural@, b.natural@, kids, kids.len() as int, true);
        lemma_content_frame(nodes, a.natural@, b.natural@, kids, kids.len() as int, false);
        assert(natural_at(nodes, a.natural@, a.screen, j));
        assert(natural_at(nodes, b.natural@, b.screen, j));
    }
}

/// Two geometries that satisfy the layout equations for the same nodes and
/// natural sizes agree on the shape of every node before `j`.
proof fn lemma_shape_unique(a: &LayoutTree, b: &LayoutTree, j: int)
    requires
        a.wf(),
        b.wf(),
        a.nodes@ == b.nodes@,
        a.screen == b.screen,
        a.natural@ == b.natural@,
        a.shapes_hold(),
        b.shapes_hold(),
        0 <= j <= a.nodes@.len(),
    ensures
        forall|i: int| 0 <= i < j ==> a.sizes@[i] == b.sizes@[i] && a.places@[i] == b.places@[i],
    decreases j,
{
    if j > 0 {
        lemma_shape_unique(a, b, j - 1);
        let nodes = a.nodes@;
        let i = j - 1;
        assert(parent_ok(nodes, i));
        assert(shape_at(nodes, a.natural@, a.sizes@, a.places@, a.screen, i));
        assert(shape_at(nodes, b.natural@, b.sizes@, b.places@, b.screen, i));
    }
}

/// The layout equations have one solution: two geometries that satisfy them
/// for the same nodes on the same surface are the same. So a resolution pass
/// that follows another with nothing changed in between gives every node the
/// position and size it had.
pub proof fn lemma_resolution_unique(a: &LayoutTree, b: &LayoutTree)
    requires
        a.wf(),
        b.wf(),
        a.nodes@ == b.nodes@,
        a.screen == b.screen,
        a.is_resolved(),
        b.is_resolved(),
    ensures
        a.natural@ == b.natural@,
        a.sizes@ == b.sizes@,
        a.places@ == b.places@,
{
    lemma_natural_unique(a, b, 0);
    assert(a.natural@ =~= b.natural@);
    lemma_shape_unique(a, b, a.nodes@.len() as int);
    assert(a.sizes@ =~= b.sizes@);
    assert(a.places@ =~= b.places@);
}

} // verus!
