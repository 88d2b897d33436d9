//! The equations that a resolved layout tree satisfies.
//!
//! A tree is a sequence of nodes in which every child stands after its parent.
//! Resolution has two passes. The natural size of a node comes from its own
//! policy or, bottom-up, from its content. The final size and position of a
//! node come, top-down, from its parent's final shape, or from the surface for
//! a root.
use crate::geometry::{floored, fraction, halved, saturated, Align, RectOffset, Size, Vec2};
use crate::layout::Layout;
use vstd::prelude::*;

verus! {

/// Longest chain of nodes sized relative to their parent; deeper ones collapse.
pub const MAX_CHAIN: u32 = 64;

/// Ceiling for running sums, above every coordinate.
pub const FAR: i128 = 0x40_0000_0000_0000_0000;

/// One node of the tree: its configuration and its links.
pub struct Node {
    pub conf: Layout,
    /// The parent's index, none for a root.
    pub parent: Option<usize>,
    /// Index of this node among its parent's children.
    pub slot: usize,
    /// Indices of the children in declaration order.
    pub children: Vec<usize>,
    /// Number of nodes up to and including this one that are sized relative to
    /// their parent without a break, counted up to `MAX_CHAIN + 1`.
    pub chain: u32,
}

/// `v` held below `FAR`.
pub open spec fn capped(v: int) -> int {
    if v > FAR {
        FAR as int
    } else {
        v
    }
}

/// The coordinate of `v` on the horizontal or the vertical axis.
pub open spec fn pick(v: Vec2, horizontal: bool) -> int {
    if horizontal {
        v.x as int
    } else {
        v.y as int
    }
}

/// Both sides of `o` on one axis together.
pub open spec fn span_of(o: RectOffset, horizontal: bool) -> int {
    if horizontal {
        o.left + o.right
    } else {
        o.top + o.bottom
    }
}

/// The left or top side of `o`.
pub open spec fn lead(o: RectOffset, horizontal: bool) -> int {
    if horizontal {
        o.left as int
    } else {
        o.top as int
    }
}

/// The right or bottom side of `o`.
pub open spec fn trail(o: RectOffset, horizontal: bool) -> int {
    if horizontal {
        o.right as int
    } else {
        o.bottom as int
    }
}

/// The policy takes what the parent has left on the given axis.
pub open spec fn fills(size: Size, horizontal: bool) -> bool {
    if horizontal {
        size is FillWidth || size is FillBoth
    } else {
        size is FillHeight || size is FillBoth
    }
}

/// The policy needs the parent's size.
pub open spec fn relative_size(size: Size) -> bool {
    size is Percent || size is FillWidth || size is FillHeight || size is FillBoth
}

/// The chain count that node `j` must carry.
pub open spec fn chain_rule(nodes: Seq<Node>, j: int) -> int {
    if !relative_size(nodes[j].conf.size) {
        0
    } else {
        match nodes[j].parent {
            None => 1,
            Some(p) => if nodes[p as int].chain >= MAX_CHAIN + 1 {
                MAX_CHAIN + 1
            } else {
                nodes[p as int].chain + 1
            },
        }
    }
}

/// Node `j` stands after its parent, which lists it in the slot it names.
pub open spec fn parent_ok(nodes: Seq<Node>, j: int) -> bool {
    match nodes[j].parent {
        Some(p) => p < j && nodes[j].slot < nodes[p as int].children@.len() && nodes[p as int].children@[nodes[j].slot as int]
            == j,
        None => true,
    }
}

/// The `k`-th child of `p` stands after `p` and names `p` and `k` as its parent
/// and slot.
pub open spec fn child_ok(nodes: Seq<Node>, p: int, k: int) -> bool {
    let c = nodes[p].children@[k];
    p < c < nodes.len() && nodes[c as int].parent == Some(p as usize) && nodes[c as int].slot == k
}

/// Node `j` carries the chain count that its policy and its parent give it.
pub open spec fn chain_ok(nodes: Seq<Node>, j: int) -> bool {
    nodes[j].chain == chain_rule(nodes, j)
}

/// Parents and children agree on their links throughout, and every chain count
/// is right.
pub open spec fn links_ok(nodes: Seq<Node>) -> bool {
    &&& forall|j: int| 0 <= j < nodes.len() ==> #[trigger] parent_ok(nodes, j)
    &&& forall|p: int, k: int|
        0 <= p < nodes.len() && 0 <= k < nodes[p].children@.len() ==> #[trigger] child_ok(nodes, p, k)
    &&& forall|j: int| 0 <= j < nodes.len() ==> #[trigger] chain_ok(nodes, j)
}

/// Index among the first `n` of `kids` of the first node whose identifier is
/// `id`, if there is one.
pub open spec fn named_among(nodes: Seq<Node>, kids: Seq<usize>, id: Seq<char>, n: int) -> Option<int>
    decreases n,
{
    if n <= 0 {
        None
    } else {
        match named_among(nodes, kids, id, n - 1) {
            Some(k) => Some(k),
            None => if nodes[kids[n - 1] as int].conf.id@ == id {
                Some(n - 1)
            } else {
                None
            },
        }
    }
}

/// Slot of the first child of `p` whose identifier is `id`, if there is one.
pub open spec fn named_child(nodes: Seq<Node>, p: int, id: Seq<char>) -> Option<int> {
    named_among(nodes, nodes[p].children@, id, nodes[p].children@.len() as int)
}

/// Index among the first `n` nodes of the first root whose identifier is `id`,
/// if there is one.
pub open spec fn root_among(nodes: Seq<Node>, id: Seq<char>, n: int) -> Option<int>
    decreases n,
{
    if n <= 0 {
        None
    } else {
        match root_among(nodes, id, n - 1) {
            Some(j) => Some(j),
            None => if nodes[n - 1].parent is None && nodes[n - 1].conf.id@ == id {
                Some(n - 1)
            } else {
                None
            },
        }
    }
}

/// Index of the first root whose identifier is `id`, if there is one.
pub open spec fn named_root(nodes: Seq<Node>, id: Seq<char>) -> Option<int> {
    root_among(nodes, id, nodes.len() as int)
}

/// `after` is `before` with the new root `j` that carries `conf`; no other
/// node changes.
pub open spec fn root_pushed(before: Seq<Node>, after: Seq<Node>, conf: Layout, j: int) -> bool {
    &&& j == before.len()
    &&& after.len() == j + 1
    &&& forall|i: int| 0 <= i < j ==> after[i] == before[i]
    &&& after[j].conf == conf
    &&& after[j].parent is None
    &&& after[j].children@.len() == 0
    &&& after[j].chain == chain_below(conf.size, 0)
}

/// `after` is `before` with `conf` among its roots, and `j` is that root. Where
/// a root carries the identifier of `conf` already, `j` is the first such root
/// and nothing changes. Else `j` is a new root and no other node changes.
pub open spec fn root_put(before: Seq<Node>, after: Seq<Node>, conf: Layout, j: int) -> bool {
    match named_root(before, conf.id@) {
        Some(r) => j == r && after == before,
        None => root_pushed(before, after, conf, j),
    }
}

/// `after` is `before` with `conf` among the children of `parent`, and `j` is
/// that child. Where a child of `parent` carries the identifier of `conf`
/// already, `j` is the first such child and nothing changes. Else `j` is a new
/// node that goes last among the children of `parent`; the parent keeps its
/// configuration and its own links, and no other node changes.
pub open spec fn child_put(before: Seq<Node>, after: Seq<Node>, parent: int, conf: Layout, j: int) -> bool {
    match named_child(before, parent, conf.id@) {
        Some(k) => j == before[parent].children@[k] && after == before,
        None => {
            &&& j == before.len()
            &&& after.len() == j + 1
            &&& after[j].conf == conf
            &&& after[j].parent == Some(parent as usize)
            &&& after[j].slot == before[parent].children@.len()
            &&& after[j].children@.len() == 0
            &&& after[j].chain == chain_below(conf.size, before[parent].chain as int)
            &&& after[parent].children@ == before[parent].children@.push(j as usize)
            &&& after[parent].conf == before[parent].conf
            &&& after[parent].parent == before[parent].parent
            &&& after[parent].slot == before[parent].slot
            &&& after[parent].chain == before[parent].chain
            &&& forall|i: int| 0 <= i < j && i != parent ==> after[i] == before[i]
        },
    }
}

/// The chain count of a new node with policy `size` under a parent that
/// carries `above`; a root passes 0.
pub open spec fn chain_below(size: Size, above: int) -> int {
    if !relative_size(size) {
        0
    } else if above >= MAX_CHAIN + 1 {
        MAX_CHAIN + 1
    } else {
        above + 1
    }
}

/// Total of the gaps between `n` children.
pub open spec fn gaps(n: int, spacing: int) -> int {
    if n <= 1 {
        0
    } else {
        (n - 1) * spacing
    }
}

/// Natural extent of node `c` with its margins on one axis.
pub open spec fn outer_natural(nodes: Seq<Node>, natural: Seq<Vec2>, c: int, horizontal: bool) -> int {
    floored(pick(natural[c], horizontal)) + span_of(nodes[c].conf.margin, horizontal)
}

/// Sum of the natural outer extents of the first `k` of `kids`.
pub open spec fn content_sum(
    nodes: Seq<Node>,
    natural: Seq<Vec2>,
    kids: Seq<usize>,
    k: int,
    horizontal: bool,
) -> int
    decreases k,
{
    if k <= 0 {
        0
    } else {
        content_sum(nodes, natural, kids, k - 1, horizontal) + outer_natural(
            nodes,
            natural,
            kids[k - 1] as int,
            horizontal,
        )
    }
}

/// Largest natural outer extent among the first `k` of `kids`, 0 for none.
pub open spec fn content_max(
    nodes: Seq<Node>,
    natural: Seq<Vec2>,
    kids: Seq<usize>,
    k: int,
    horizontal: bool,
) -> int
    decreases k,
{
    if k <= 0 {
        0
    } else {
        let rest = content_max(nodes, natural, kids, k - 1, horizontal);
        let own = outer_natural(nodes, natural, kids[k - 1] as int, horizontal);
        if own > rest {
            own
        } else {
            rest
        }
    }
}

/// Extent of the content of node `p` on one axis: the measured content of a
/// leaf; for a container its padding plus, along the flow, the children with
/// the gaps between them and, across the flow, the largest child.
pub open spec fn content_axis(nodes: Seq<Node>, natural: Seq<Vec2>, p: int, horizontal: bool) -> int {
    let node = nodes[p];
    let kids = node.children@;
    let n = kids.len() as int;
    if n == 0 {
        floored(pick(node.conf.content, horizontal))
    } else if node.conf.mode.is_horizontal() == horizontal {
        content_sum(nodes, natural, kids, n, horizontal) + gaps(n, node.conf.spacing as int) + span_of(
            node.conf.padding,
            horizontal,
        )
    } else {
        content_max(nodes, natural, kids, n, horizontal) + span_of(node.conf.padding, horizontal)
    }
}

/// Natural extent of node `p` on one axis: a static or surface-relative size
/// as configured, the content's extent under every other policy.
pub open spec fn natural_axis(
    nodes: Seq<Node>,
    natural: Seq<Vec2>,
    screen: Vec2,
    p: int,
    horizontal: bool,
) -> int {
    match nodes[p].conf.size {
        Size::Static(w, h) => if horizontal {
            w as int
        } else {
            h as int
        },
        Size::ScreenRelative(pw, ph) => fraction(
            pick(screen, horizontal),
            if horizontal {
                pw as int
            } else {
                ph as int
            },
        ),
        _ => saturated(content_axis(nodes, natural, p, horizontal)),
    }
}

/// Natural size of node `p`.
pub open spec fn natural_rule(nodes: Seq<Node>, natural: Seq<Vec2>, screen: Vec2, p: int) -> Vec2 {
    Vec2 {
        x: natural_axis(nodes, natural, screen, p, true) as i64,
        y: natural_axis(nodes, natural, screen, p, false) as i64,
    }
}

/// What is left of `size` inside `padding`; never negative.
pub open spec fn inner_of(size: Vec2, padding: RectOffset) -> Vec2 {
    Vec2 {
        x: floored(size.x - span_of(padding, true)) as i64,
        y: floored(size.y - span_of(padding, false)) as i64,
    }
}

/// Extent of node `c` on one axis before any remaining space is handed out,
/// inside a container whose inner size is `inner`: 0 on an axis that the node
/// fills, and 0 for a node too deep in a chain of relative sizes.
pub open spec fn basic_axis(
    nodes: Seq<Node>,
    natural: Seq<Vec2>,
    c: int,
    inner: Vec2,
    horizontal: bool,
) -> int {
    let size = nodes[c].conf.size;
    if nodes[c].chain > MAX_CHAIN || fills(size, horizontal) {
        0
    } else {
        match size {
            Size::Static(w, h) => if horizontal {
                w as int
            } else {
                h as int
            },
            Size::Percent(pw, ph) => fraction(
                pick(inner, horizontal),
                if horizontal {
                    pw as int
                } else {
                    ph as int
                },
            ),
            _ => floored(pick(natural[c], horizontal)),
        }
    }
}

/// Space that the first `k` of `kids` take along the flow apart from what the
/// filling ones are given: margins of all, extents of those that do not fill.
pub open spec fn fixed_sum(
    nodes: Seq<Node>,
    natural: Seq<Vec2>,
    kids: Seq<usize>,
    k: int,
    inner: Vec2,
    horizontal: bool,
) -> int
    decreases k,
{
    if k <= 0 {
        0
    } else {
        fixed_sum(nodes, natural, kids, k - 1, inner, horizontal) + span_of(
            nodes[kids[k - 1] as int].conf.margin,
            horizontal,
        ) + basic_axis(nodes, natural, kids[k - 1] as int, inner, horizontal)
    }
}

/// Number of the first `k` of `kids` that fill the given axis.
pub open spec fn fill_count(nodes: Seq<Node>, kids: Seq<usize>, k: int, horizontal: bool) -> int
    decreases k,
{
    if k <= 0 {
        0
    } else {
        fill_count(nodes, kids, k - 1, horizontal) + if fills(
            nodes[kids[k - 1] as int].conf.size,
            horizontal,
        ) {
            1int
        } else {
            0int
        }
    }
}

/// Extent along the flow that each filling child of `p` is given: what the
/// fixed children, the margins and the gaps leave of the inner extent, divided
/// equally and rounded down.
pub open spec fn share(nodes: Seq<Node>, natural: Seq<Vec2>, p: int, inner: Vec2) -> int {
    let node = nodes[p];
    let kids = node.children@;
    let n = kids.len() as int;
    let horizontal = node.conf.mode.is_horizontal();
    let count = fill_count(nodes, kids, n, horizontal);
    if count == 0 {
        0
    } else {
        floored(
            pick(inner, horizontal) - fixed_sum(nodes, natural, kids, n, inner, horizontal) - gaps(
                n,
                node.conf.spacing as int,
            ),
        ) / count
    }
}

/// Final extent of node `c` on one axis in a container of inner size `inner`.
/// A filling node takes `lot` where one is given, else the inner extent less its
/// own margins.
pub open spec fn axis_size(
    nodes: Seq<Node>,
    natural: Seq<Vec2>,
    c: int,
    inner: Vec2,
    horizontal: bool,
    lot: Option<int>,
) -> int {
    if nodes[c].chain > MAX_CHAIN {
        0
    } else if fills(nodes[c].conf.size, horizontal) {
        match lot {
            Some(s) => s,
            None => floored(pick(inner, horizontal) - span_of(nodes[c].conf.margin, horizontal)),
        }
    } else {
        basic_axis(nodes, natural, c, inner, horizontal)
    }
}

/// Final extent on one axis of the `k`-th child of `p`.
pub open spec fn child_axis_size(
    nodes: Seq<Node>,
    natural: Seq<Vec2>,
    p: int,
    k: int,
    inner: Vec2,
    horizontal: bool,
) -> int {
    axis_size(
        nodes,
        natural,
        nodes[p].children@[k] as int,
        inner,
        horizontal,
        if nodes[p].conf.mode.is_horizontal() == horizontal {
            Some(share(nodes, natural, p, inner))
        } else {
            None
        },
    )
}

/// Final size of the `k`-th child of `p`.
pub open spec fn child_size(nodes: Seq<Node>, natural: Seq<Vec2>, p: int, k: int, inner: Vec2) -> Vec2 {
    Vec2 {
        x: child_axis_size(nodes, natural, p, k, inner, true) as i64,
        y: child_axis_size(nodes, natural, p, k, inner, false) as i64,
    }
}

/// Distance along the flow from the start of the content of `p` to the outer
/// edge at which its `k`-th child begins: the outer extents of the children
/// before it and one gap after each.
pub open spec fn cursor(nodes: Seq<Node>, natural: Seq<Vec2>, p: int, k: int, inner: Vec2) -> int
    decreases k,
{
    let horizontal = nodes[p].conf.mode.is_horizontal();
    if k <= 0 {
        0
    } else {
        cursor(nodes, natural, p, k - 1, inner) + child_axis_size(
            nodes,
            natural,
            p,
            k - 1,
            inner,
            horizontal,
        ) + span_of(nodes[nodes[p].children@[k - 1] as int].conf.margin, horizontal)
            + nodes[p].conf.spacing
    }
}

/// The children of `p` with the gaps between them take more room along the
/// flow than the inner extent offers.
pub open spec fn spills(nodes: Seq<Node>, natural: Seq<Vec2>, p: int, inner: Vec2) -> bool {
    let n = nodes[p].children@.len() as int;
    n >= 1 && cursor(nodes, natural, p, n, inner) - nodes[p].conf.spacing > pick(
        inner,
        nodes[p].conf.mode.is_horizontal(),
    )
}

/// Where the `k`-th child of `p` starts along the flow, before saturation. A
/// forward flow counts from the near padding edge, a reverse flow back from the
/// far one.
pub open spec fn child_main_pos(
    nodes: Seq<Node>,
    natural: Seq<Vec2>,
    p: int,
    k: int,
    place: Vec2,
    size: Vec2,
) -> int {
    let node = nodes[p];
    let horizontal = node.conf.mode.is_horizontal();
    let inner = inner_of(size, node.conf.padding);
    let margin = nodes[node.children@[k] as int].conf.margin;
    if !node.conf.mode.is_reverse() {
        pick(place, horizontal) + lead(node.conf.padding, horizontal) + cursor(nodes, natural, p, k, inner)
            + lead(margin, horizontal)
    } else {
        pick(place, horizontal) + pick(size, horizontal) - trail(node.conf.padding, horizontal) - cursor(
            nodes,
            natural,
            p,
            k,
            inner,
        ) - trail(margin, horizontal) - child_axis_size(nodes, natural, p, k, inner, horizontal)
    }
}

/// Where the `k`-th child of `p` starts across the flow, before saturation.
pub open spec fn child_cross_pos(
    nodes: Seq<Node>,
    natural: Seq<Vec2>,
    p: int,
    k: int,
    place: Vec2,
    size: Vec2,
) -> int {
    let node = nodes[p];
    let horizontal = !node.conf.mode.is_horizontal();
    let inner = inner_of(size, node.conf.padding);
    let margin = nodes[node.children@[k] as int].conf.margin;
    let outer = child_axis_size(nodes, natural, p, k, inner, horizontal) + span_of(margin, horizontal);
    pick(place, horizontal) + lead(node.conf.padding, horizontal) + lead(margin, horizontal) + match node.conf.align {
        Align::Start => 0,
        Align::Center => halved(pick(inner, horizontal) - outer),
        Align::End => pick(inner, horizontal) - outer,
    }
}

/// Final position of the `k`-th child of `p`, whose own final position and size
/// are `place` and `size`.
pub open spec fn child_pos(
    nodes: Seq<Node>,
    natural: Seq<Vec2>,
    p: int,
    k: int,
    place: Vec2,
    size: Vec2,
) -> Vec2 {
    let main = saturated(child_main_pos(nodes, natural, p, k, place, size)) as i64;
    let cross = saturated(child_cross_pos(nodes, natural, p, k, place, size)) as i64;
    if nodes[p].conf.mode.is_horizontal() {
        Vec2 { x: main, y: cross }
    } else {
        Vec2 { x: cross, y: main }
    }
}

/// Final size of node `j`, given the final sizes of the nodes before it.
pub open spec fn own_size(
    nodes: Seq<Node>,
    natural: Seq<Vec2>,
    sizes: Seq<Vec2>,
    screen: Vec2,
    j: int,
) -> Vec2 {
    match nodes[j].parent {
        None => Vec2 {
            x: axis_size(nodes, natural, j, screen, true, None) as i64,
            y: axis_size(nodes, natural, j, screen, false, None) as i64,
        },
        Some(p) => child_size(
            nodes,
            natural,
            p as int,
            nodes[j].slot as int,
            inner_of(sizes[p as int], nodes[p as int].conf.padding),
        ),
    }
}

/// Final position of node `j`, given the final shapes of the nodes before it.
pub open spec fn own_pos(
    nodes: Seq<Node>,
    natural: Seq<Vec2>,
    sizes: Seq<Vec2>,
    places: Seq<Vec2>,
    screen: Vec2,
    j: int,
) -> Vec2 {
    match nodes[j].parent {
        None => nodes[j].conf.position.spec_relative(
            own_size(nodes, natural, sizes, screen, j),
            screen,
            None,
        ),
        Some(p) => child_pos(
            nodes,
            natural,
            p as int,
            nodes[j].slot as int,
            places[p as int],
            sizes[p as int],
        ),
    }
}

/// The stored natural size of node `j` is what the rule gives.
pub open spec fn natural_at(nodes: Seq<Node>, natural: Seq<Vec2>, screen: Vec2, j: int) -> bool {
    natural[j] == natural_rule(nodes, natural, screen, j)
}

/// The stored final size and position of node `j` are what the rules give.
pub open spec fn shape_at(
    nodes: Seq<Node>,
    natural: Seq<Vec2>,
    sizes: Seq<Vec2>,
    places: Seq<Vec2>,
    screen: Vec2,
    j: int,
) -> bool {
    sizes[j] == own_size(nodes, natural, sizes, screen, j) && places[j] == own_pos(
        nodes,
        natural,
        sizes,
        places,
        screen,
        j,
    )
}

/// The natural sums over the children of a node read the natural sizes of
/// those children only.
pub proof fn lemma_content_frame(
    nodes: Seq<Node>,
    a: Seq<Vec2>,
    b: Seq<Vec2>,
    kids: Seq<usize>,
    k: int,
    horizontal: bool,
)
    requires
        k <= kids.len(),
        forall|j: int| 0 <= j < k ==> a[#[trigger] kids[j] as int] == b[kids[j] as int],
    ensures
        content_sum(nodes, a, kids, k, horizontal) == content_sum(nodes, b, kids, k, horizontal),
        content_max(nodes, a, kids, k, horizontal) == content_max(nodes, b, kids, k, horizontal),
    decreases k,
{
    if k > 0 {
        lemma_content_frame(nodes, a, b, kids, k - 1, horizontal);
        assert(a[kids[k - 1] as int] == b[kids[k - 1] as int]);
    }
}

} // verus!
