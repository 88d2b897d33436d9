//! The layout tree and its resolution into positions and sizes.
use crate::geometry::{floored, fraction_of, half, saturate, saturated, Align, RectOffset, Size, Vec2};
use crate::layout::Layout;
use crate::layout_rules::{
    axis_size, basic_axis, capped, chain_ok, child_axis_size, child_cross_pos, child_main_pos,
    child_ok, child_put, child_size, content_axis, content_max, content_sum, cursor, fill_count,
    fills, fixed_sum, gaps, inner_of, lead, lemma_content_frame, links_ok, named_among,
    named_child, named_root, natural_at, natural_rule, own_pos, own_size, parent_ok, pick,
    relative_size, root_among, root_pushed, root_put, shape_at, share, span_of, spills, trail,
    FAR, MAX_CHAIN, Node,
};
use vstd::prelude::*;

verus! {

/// What can go wrong when a tree is built.
#[derive(Clone, Copy, Debug, PartialEq, Eq, Structural)]
pub enum LayoutError {
    /// A node names a parent that the tree does not hold.
    InvariantViolated,
}

/// A forest of layout nodes over one surface, with the geometry that the last
/// resolution computed for each node.
pub struct LayoutTree {
    pub nodes: Vec<Node>,
    /// Natural size of each node.
    pub natural: Vec<Vec2>,
    /// Final size of each node.
    pub sizes: Vec<Vec2>,
    /// Final position of each node on the surface.
    pub places: Vec<Vec2>,
    /// Extent of the root surface.
    pub screen: Vec2,
    /// The geometry is older than the tree.
    pub dirty: bool,
}

fn pick_of(v: Vec2, horizontal: bool) -> (r: i64)
    ensures
        r == pick(v, horizontal),
{
    if horizontal {
        v.x
    } else {
        v.y
    }
}

fn span_val(o: RectOffset, horizontal: bool) -> (r: i128)
    ensures
        r == span_of(o, horizontal),
        0 <= r <= 0x2_0000_0000,
{
    if horizontal {
        o.left as i128 + o.right as i128
    } else {
        o.top as i128 + o.bottom as i128
    }
}

fn lead_val(o: RectOffset, horizontal: bool) -> (r: i128)
    ensures
        r == lead(o, horizontal),
        0 <= r <= 0x1_0000_0000,
{
    if horizontal {
        o.left as i128
    } else {
        o.top as i128
    }
}

fn trail_val(o: RectOffset, horizontal: bool) -> (r: i128)
    ensures
        r == trail(o, horizontal),
        0 <= r <= 0x1_0000_0000,
{
    if horizontal {
        o.right as i128
    } else {
        o.bottom as i128
    }
}

fn fills_axis(size: Size, horizontal: bool) -> (r: bool)
    ensures
        r == fills(size, horizontal),
{
    match size {
        Size::FillBoth => true,
        Size::FillWidth => horizontal,
        Size::FillHeight => !horizontal,
        _ => false,
    }
}

fn is_relative(size: Size) -> (r: bool)
    ensures
        r == relative_size(size),
{
    match size {
        Size::Percent(_, _) | Size::FillWidth | Size::FillHeight | Size::FillBoth => true,
        _ => false,
    }
}

fn floor_zero(v: i64) -> (r: i64)
    ensures
        r == floored(v as int),
{
    if v < 0 {
        0
    } else {
        v
    }
}

fn gap_total(n: usize, spacing: u32) -> (r: i128)
    ensures
        r == gaps(n as int, spacing as int),
        0 <= r <= 0x1_0000_0000_0000_0000_0000_0000,
{
    if n <= 1 {
        0
    } else {
        let a: i128 = (n - 1) as i128;
        let b: i128 = spacing as i128;
        assert(0 <= a * b <= 0x1_0000_0000_0000_0000 * 0x1_0000_0000) by (nonlinear_arith)
            requires
                0 <= a <= 0x1_0000_0000_0000_0000,
                0 <= b <= 0x1_0000_0000,
        ;
        a * b
    }
}

fn inner_val(size: Vec2, padding: RectOffset) -> (r: Vec2)
    ensures
        r == inner_of(size, padding),
{
    let w: i128 = size.x as i128 - span_val(padding, true);
    let h: i128 = size.y as i128 - span_val(padding, false);
    Vec2 {
        x: if w < 0 {
            0
        } else {
            w as i64
        },
        y: if h < 0 {
            0
        } else {
            h as i64
        },
    }
}

/// A name found among the first `k` children is the one found among all.
proof fn lemma_named_stays(nodes: Seq<Node>, kids: Seq<usize>, id: Seq<char>, k: int, n: int)
    requires
        0 <= k <= n,
        named_among(nodes, kids, id, k) is Some,
    ensures
        named_among(nodes, kids, id, n) == named_among(nodes, kids, id, k),
    decreases n - k,
{
    if k < n {
        lemma_named_stays(nodes, kids, id, k, n - 1);
    }
}

/// A root found among the first `k` nodes is the one found among all.
proof fn lemma_root_stays(nodes: Seq<Node>, id: Seq<char>, k: int, n: int)
    requires
        0 <= k <= n,
        root_among(nodes, id, k) is Some,
    ensures
        root_among(nodes, id, n) == root_among(nodes, id, k),
    decreases n - k,
{
    if k < n {
        lemma_root_stays(nodes, id, k, n - 1);
    }
}

/// A root found among the first `n` nodes is one of them, has no parent and
/// carries the identifier.
pub proof fn lemma_root_in_range(nodes: Seq<Node>, id: Seq<char>, n: int)
    requires
        root_among(nodes, id, n) is Some,
    ensures
        0 <= root_among(nodes, id, n)->0 < n,
        nodes[root_among(nodes, id, n)->0].parent is None,
        nodes[root_among(nodes, id, n)->0].conf.id@ == id,
    decreases n,
{
    if n > 0 && root_among(nodes, id, n - 1) is Some {
        lemma_root_in_range(nodes, id, n - 1);
    }
}

/// A name found among the first `n` children is found at one of them.
pub proof fn lemma_named_in_range(nodes: Seq<Node>, kids: Seq<usize>, id: Seq<char>, n: int)
    requires
        named_among(nodes, kids, id, n) is Some,
    ensures
        0 <= named_among(nodes, kids, id, n)->0 < n,
        nodes[kids[named_among(nodes, kids, id, n)->0] as int].conf.id@ == id,
    decreases n,
{
    if n > 0 && named_among(nodes, kids, id, n - 1) is Some {
        lemma_named_in_range(nodes, kids, id, n - 1);
    }
}

impl LayoutTree {
    /// Every child stands after its parent, parents and children agree on their
    /// links, each node carries its chain count, and geometry that is not
    /// marked stale satisfies the layout equations.
    pub open spec fn wf(&self) -> bool {
        &&& self.natural@.len() == self.nodes@.len()
        &&& self.sizes@.len() == self.nodes@.len()
        &&& self.places@.len() == self.nodes@.len()
        &&& links_ok(self.nodes@)
        &&& !self.dirty ==> self.is_resolved()
    }

    /// Every natural size is what the natural-size rule gives.
    pub open spec fn naturals_hold(&self) -> bool {
        forall|j: int|
            0 <= j < self.nodes@.len() ==> #[trigger] natural_at(self.nodes@, self.natural@, self.screen, j)
    }

    /// Every final size and position is what the rules give.
    pub open spec fn shapes_hold(&self) -> bool {
        forall|j: int|
            0 <= j < self.nodes@.len() ==> #[trigger] shape_at(
                self.nodes@,
                self.natural@,
                self.sizes@,
                self.places@,
                self.screen,
                j,
            )
    }

    /// `after` is this tree with `conf` added as the new root `j` and the
    /// geometry marked stale.
    pub open spec fn grown_by_root(&self, after: LayoutTree, conf: Layout, j: usize) -> bool {
        &&& root_pushed(self.nodes@, after.nodes@, conf, j as int)
        &&& after.screen == self.screen
        &&& after.dirty
    }

    /// `after` is this tree with `conf` among its roots, and `j` is that root.
    /// Where a root carries the identifier of `conf` already, `j` is the first
    /// such root and the tree is unchanged. Else `j` is a new root, nothing else
    /// changes in the tree and the geometry is marked stale.
    pub open spec fn grown_by_named_root(&self, after: LayoutTree, conf: Layout, j: usize) -> bool {
        &&& after.screen == self.screen
        &&& root_put(self.nodes@, after.nodes@, conf, j as int)
        &&& match named_root(self.nodes@, conf.id@) {
            Some(r) => after == *self,
            None => after.dirty,
        }
    }

    /// `after` is this tree with `conf` put among the children of `parent`, and
    /// `j` is the child. Where a child of `parent` carries the identifier of
    /// `conf` already, `j` is the first such child and the tree is unchanged.
    /// Else `j` is a new node that goes last among the children, nothing else
    /// changes in the tree and the geometry is marked stale.
    pub open spec fn grown_by_child(&self, after: LayoutTree, parent: usize, conf: Layout, j: usize) -> bool {
        &&& after.screen == self.screen
        &&& child_put(self.nodes@, after.nodes@, parent as int, conf, j as int)
        &&& match named_child(self.nodes@, parent as int, conf.id@) {
            Some(k) => after == *self,
            None => after.dirty,
        }
    }

    /// The stored geometry satisfies the layout equations.
    pub open spec fn is_resolved(&self) -> bool {
        self.naturals_hold() && self.shapes_hold()
    }

    /// An empty tree over a surface of the given extent.
    pub fn new(screen: Vec2) -> (t: Self)
        ensures
            t.wf(),
            t.nodes@.len() == 0,
            t.screen == screen,
            t.dirty,
    {
        LayoutTree {
            nodes: Vec::new(),
            natural: Vec::new(),
            sizes: Vec::new(),
            places: Vec::new(),
            screen,
            dirty: true,
        }
    }

    /// Adds `conf` as a new root, whatever identifiers the roots carry, and
    /// returns its index.
    pub fn insert(&mut self, conf: Layout) -> (j: usize)
        requires
            old(self).wf(),
        ensures
            final(self).wf(),
            old(self).grown_by_root(*final(self), conf, j),
    {
        let chain: u32 = if is_relative(conf.size) {
            1
        } else {
            0
        };
        let j = self.nodes.len();
        let zero = Vec2 { x: 0, y: 0 };
        self.nodes.push(Node { conf, parent: None, slot: 0, children: Vec::new(), chain });
        self.natural.push(zero);
        self.sizes.push(zero);
        self.places.push(zero);
        self.dirty = true;
        proof {
            let was = old(self).nodes@;
            let now = self.nodes@;
            assert forall|i: int| 0 <= i < now.len() implies #[trigger] parent_ok(now, i) by {
                if i < j {
                    assert(parent_ok(was, i));
                }
            }
            assert forall|p: int, k: int|
                0 <= p < now.len() && 0 <= k < now[p].children@.len() implies #[trigger] child_ok(
                now,
                p,
                k,
            ) by {
                assert(child_ok(was, p, k));
            }
            assert forall|i: int| 0 <= i < now.len() implies #[trigger] chain_ok(now, i) by {
                if i < j {
                    assert(chain_ok(was, i));
                    assert(parent_ok(was, i));
                }
            }
        }
        j
    }

    /// Puts `conf` among the roots unless a root with the same identifier is
    /// there already, and returns the root's index either way.
    ///
    /// A new root marks the geometry stale. Where the identifier is taken, the
    /// tree stays as it is and the root first given under that identifier
    /// keeps its configuration.
    pub fn subs_root(&mut self, conf: Layout) -> (j: usize)
        requires
            old(self).wf(),
        ensures
            final(self).wf(),
            old(self).grown_by_named_root(*final(self), conf, j),
    {
        let n = self.nodes.len();
        let mut k: usize = 0;
        while k < n
            invariant
                self.wf(),
                *self == *old(self),
                n == self.nodes@.len(),
                k <= n,
                root_among(self.nodes@, conf.id@, k as int) is None,
            decreases n - k,
        {
            if self.nodes[k].parent.is_none() && self.nodes[k].conf.id == conf.id {
                proof {
                    lemma_root_stays(self.nodes@, conf.id@, k as int + 1, n as int);
                }
                return k;
            }
            k += 1;
        }
        self.insert(conf)
    }

    /// Puts `conf` among the children of `parent` unless a child with the same
    /// identifier is there already, and returns the child's index either way.
    ///
    /// A new child goes last and the geometry is marked stale. Where the
    /// identifier is taken, the tree stays as it is and the node first given
    /// under that identifier keeps its configuration.
    pub fn subs_append(&mut self, parent: usize, conf: Layout) -> (j: usize)
        requires
            old(self).wf(),
            parent < old(self).nodes@.len(),
        ensures
            final(self).wf(),
            old(self).grown_by_child(*final(self), parent, conf, j),
    {
        let n = self.nodes[parent].children.len();
        let mut k: usize = 0;
        while k < n
            invariant
                self.wf(),
                *self == *old(self),
                parent < self.nodes@.len(),
                n == self.nodes@[parent as int].children@.len(),
                k <= n,
                named_among(self.nodes@, self.nodes@[parent as int].children@, conf.id@, k as int) is None,
            decreases n - k,
        {
            let c = self.nodes[parent].children[k];
            assert(child_ok(self.nodes@, parent as int, k as int));
            if self.nodes[c].conf.id == conf.id {
                proof {
                    lemma_named_stays(
                        self.nodes@,
                        self.nodes@[parent as int].children@,
                        conf.id@,
                        k as int + 1,
                        n as int,
                    );
                }
                return c;
            }
            k += 1;
        }
        let above = self.nodes[parent].chain;
        let chain: u32 = if !is_relative(conf.size) {
            0
        } else if above >= MAX_CHAIN + 1 {
            MAX_CHAIN + 1
        } else {
            above + 1
        };
        let j = self.nodes.len();
        let zero = Vec2 { x: 0, y: 0 };
        self.nodes.push(Node { conf, parent: Some(parent), slot: n, children: Vec::new(), chain });
        self.nodes[parent].children.push(j);
        self.natural.push(zero);
        self.sizes.push(zero);
        self.places.push(zero);
        self.dirty = true;
        proof {
            let was = old(self).nodes@;
            let now = self.nodes@;
            assert forall|i: int| 0 <= i < now.len() implies #[trigger] parent_ok(now, i) by {
                if i < j {
                    assert(parent_ok(was, i));
                }
            }
            assert forall|p: int, k: int|
                0 <= p < now.len() && 0 <= k < now[p].children@.len() implies #[trigger] child_ok(
                now,
                p,
                k,
            ) by {
                if p == parent && k == n {
                } else {
                    assert(child_ok(was, p, k));
                }
            }
            assert forall|i: int| 0 <= i < now.len() implies #[trigger] chain_ok(now, i) by {
                if i < j {
                    assert(chain_ok(was, i));
                    assert(parent_ok(was, i));
                }
            }
        }
        j
    }

    /// Puts `conf` among the children of `parent`; the same as `subs_append`.
    pub fn append(&mut self, parent: usize, conf: Layout) -> (j: usize)
        requires
            old(self).wf(),
            parent < old(self).nodes@.len(),
        ensures
            final(self).wf(),
            old(self).grown_by_child(*final(self), parent, conf, j),
    {
        self.subs_append(parent, conf)
    }

    /// Adds `conf` to the tree where it declares: under the parent it names, or
    /// as a root where it names none; a node that stands there under the same
    /// identifier already is not added again. A parent that is no node of the
    /// tree is an error, and the tree stays as it is.
    pub fn add(&mut self, conf: Layout) -> (r: Result<usize, LayoutError>)
        requires
            old(self).wf(),
        ensures
            final(self).wf(),
            match conf.parent {
                None => r is Ok && old(self).grown_by_named_root(*final(self), conf, r->Ok_0),
                Some(p) => if p < old(self).nodes@.len() {
                    r is Ok && old(self).grown_by_child(*final(self), p, conf, r->Ok_0)
                } else {
                    r == Err::<usize, LayoutError>(LayoutError::InvariantViolated) && *final(self) == *old(self)
                },
            },
    {
        match conf.parent {
            None => Ok(self.subs_root(conf)),
            Some(p) => {
                if p < self.nodes.len() {
                    Ok(self.subs_append(p, conf))
                } else {
                    Err(LayoutError::InvariantViolated)
                }
            },
        }
    }

    /// Replaces the extent of the root surface and marks the geometry stale.
    pub fn set_screen(&mut self, screen: Vec2)
        requires
            old(self).wf(),
        ensures
            final(self).wf(),
            final(self).nodes == old(self).nodes,
            final(self).screen == screen,
            final(self).dirty,
    {
        self.screen = screen;
        self.dirty = true;
    }

    /// The parent of node `j`, none for a root.
    pub fn parent_of(&self, j: usize) -> (r: Option<usize>)
        requires
            j < self.nodes@.len(),
        ensures
            r == self.nodes@[j as int].parent,
    {
        self.nodes[j].parent
    }

    /// Number of children of node `j`.
    pub fn child_count(&self, j: usize) -> (r: usize)
        requires
            j < self.nodes@.len(),
        ensures
            r == self.nodes@[j as int].children@.len(),
    {
        self.nodes[j].children.len()
    }

    /// The `k`-th child of node `j`.
    pub fn child_at(&self, j: usize, k: usize) -> (r: usize)
        requires
            j < self.nodes@.len(),
            k < self.nodes@[j as int].children@.len(),
        ensures
            r == self.nodes@[j as int].children@[k as int],
    {
        self.nodes[j].children[k]
    }

    /// Number of nodes.
    pub fn len(&self) -> (n: usize)
        ensures
            n == self.nodes@.len(),
    {
        self.nodes.len()
    }

    fn content_axis_of(&self, p: usize, horizontal: bool) -> (r: i64)
        requires
            self.wf(),
            p < self.nodes@.len(),
        ensures
            r == saturated(content_axis(self.nodes@, self.natural@, p as int, horizontal)),
            r >= 0,
    {
        let node = &self.nodes[p];
        let n = node.children.len();
        if n == 0 {
            floor_zero(pick_of(node.conf.content, horizontal))
        } else {
            let mut sum: i128 = 0;
            let mut top: i128 = 0;
            let mut k: usize = 0;
            while k < n
                invariant
                    self.wf(),
                    p < self.nodes@.len(),
                    *node == self.nodes@[p as int],
                    n == node.children@.len(),
                    k <= n,
                    0 <= content_sum(self.nodes@, self.natural@, node.children@, k as int, horizontal),
                    sum == capped(
                        content_sum(self.nodes@, self.natural@, node.children@, k as int, horizontal),
                    ),
                    top == content_max(self.nodes@, self.natural@, node.children@, k as int, horizontal),
                    0 <= top <= 0x1_0000_0000_0000_0000,
                decreases n - k,
            {
                let c = node.children[k];
                assert(child_ok(self.nodes@, p as int, k as int));
                let own: i128 = floor_zero(pick_of(self.natural[c], horizontal)) as i128 + span_val(
                    self.nodes[c].conf.margin,
                    horizontal,
                );
                sum = if sum + own > FAR {
                    FAR
                } else {
                    sum + own
                };
                if own > top {
                    top = own;
                }
                k += 1;
            }
            if node.conf.mode.is_horizontal() == horizontal {
                saturate(sum + gap_total(n, node.conf.spacing) + span_val(node.conf.padding, horizontal))
            } else {
                saturate(top + span_val(node.conf.padding, horizontal))
            }
        }
    }

    fn natural_of(&self, p: usize) -> (r: Vec2)
        requires
            self.wf(),
            p < self.nodes@.len(),
        ensures
            r == natural_rule(self.nodes@, self.natural@, self.screen, p as int),
    {
        match self.nodes[p].conf.size {
            Size::Static(w, h) => Vec2 { x: w as i64, y: h as i64 },
            Size::ScreenRelative(pw, ph) => Vec2 {
                x: fraction_of(self.screen.x, pw),
                y: fraction_of(self.screen.y, ph),
            },
            _ => Vec2 { x: self.content_axis_of(p, true), y: self.content_axis_of(p, false) },
        }
    }

    fn basic_axis_of(&self, c: usize, inner: Vec2, horizontal: bool) -> (r: i64)
        requires
            self.wf(),
            c < self.nodes@.len(),
        ensures
            r == basic_axis(self.nodes@, self.natural@, c as int, inner, horizontal),
            r >= 0,
    {
        let node = &self.nodes[c];
        if node.chain > MAX_CHAIN || fills_axis(node.conf.size, horizontal) {
            0
        } else {
            match node.conf.size {
                Size::Static(w, h) => if horizontal {
                    w as i64
                } else {
                    h as i64
                },
                Size::Percent(pw, ph) => fraction_of(
                    pick_of(inner, horizontal),
                    if horizontal {
                        pw
                    } else {
                        ph
                    },
                ),
                _ => floor_zero(pick_of(self.natural[c], horizontal)),
            }
        }
    }

    fn share_of(&self, p: usize, inner: Vec2) -> (r: i64)
        requires
            self.wf(),
            p < self.nodes@.len(),
        ensures
            r == share(self.nodes@, self.natural@, p as int, inner),
            r >= 0,
    {
        let node = &self.nodes[p];
        let horizontal = node.conf.mode.is_horizontal();
        let n = node.children.len();
        let mut fixed: i128 = 0;
        let mut count: usize = 0;
        let mut k: usize = 0;
        while k < n
            invariant
                self.wf(),
                p < self.nodes@.len(),
                *node == self.nodes@[p as int],
                n == node.children@.len(),
                k <= n,
                0 <= fixed_sum(self.nodes@, self.natural@, node.children@, k as int, inner, horizontal),
                fixed == capped(
                    fixed_sum(self.nodes@, self.natural@, node.children@, k as int, inner, horizontal),
                ),
                count == fill_count(self.nodes@, node.children@, k as int, horizontal),
                count <= k,
            decreases n - k,
        {
            let c = node.children[k];
            assert(child_ok(self.nodes@, p as int, k as int));
            let own: i128 = span_val(self.nodes[c].conf.margin, horizontal) + self.basic_axis_of(
                c,
                inner,
                horizontal,
            ) as i128;
            fixed = if fixed + own > FAR {
                FAR
            } else {
                fixed + own
            };
            if fills_axis(self.nodes[c].conf.size, horizontal) {
                count += 1;
            }
            k += 1;
        }
        if count == 0 {
            0
        } else {
            let left: i128 = pick_of(inner, horizontal) as i128 - fixed - gap_total(n, node.conf.spacing);
            let room: i128 = if left < 0 {
                0
            } else {
                left
            };
            let parts: i128 = count as i128;
            assert(0 <= room / parts <= room) by (nonlinear_arith)
                requires
                    0 <= room,
                    1 <= parts,
            ;
            (room / parts) as i64
        }
    }

    fn axis_size_of(&self, c: usize, inner: Vec2, horizontal: bool, lot: Option<i64>) -> (r: i64)
        requires
            self.wf(),
            c < self.nodes@.len(),
            lot is Some ==> lot->0 >= 0,
        ensures
            r == axis_size(
                self.nodes@,
                self.natural@,
                c as int,
                inner,
                horizontal,
                match lot {
                    Some(s) => Some(s as int),
                    None => None,
                },
            ),
            r >= 0,
    {
        let node = &self.nodes[c];
        if node.chain > MAX_CHAIN {
            0
        } else if fills_axis(node.conf.size, horizontal) {
            match lot {
                Some(s) => s,
                None => {
                    let v: i128 = pick_of(inner, horizontal) as i128 - span_val(
                        node.conf.margin,
                        horizontal,
                    );
                    if v < 0 {
                        0
                    } else {
                        v as i64
                    }
                },
            }
        } else {
            self.basic_axis_of(c, inner, horizontal)
        }
    }

    fn child_size_of(&self, p: usize, k: usize, inner: Vec2, lot: i64) -> (r: Vec2)
        requires
            self.wf(),
            p < self.nodes@.len(),
            k < self.nodes@[p as int].children@.len(),
            lot == share(self.nodes@, self.natural@, p as int, inner),
            lot >= 0,
        ensures
            r == child_size(self.nodes@, self.natural@, p as int, k as int, inner),
            r.x == child_axis_size(self.nodes@, self.natural@, p as int, k as int, inner, true),
            r.y == child_axis_size(self.nodes@, self.natural@, p as int, k as int, inner, false),
            r.x >= 0,
            r.y >= 0,
    {
        let node = &self.nodes[p];
        let c = node.children[k];
        assert(child_ok(self.nodes@, p as int, k as int));
        let horizontal = node.conf.mode.is_horizontal();
        let x = self.axis_size_of(
            c,
            inner,
            true,
            if horizontal {
                Some(lot)
            } else {
                None
            },
        );
        let y = self.axis_size_of(
            c,
            inner,
            false,
            if horizontal {
                None
            } else {
                Some(lot)
            },
        );
        Vec2 { x, y }
    }

    fn cursor_of(&self, p: usize, k: usize, inner: Vec2, lot: i64) -> (r: i128)
        requires
            self.wf(),
            p < self.nodes@.len(),
            k <= self.nodes@[p as int].children@.len(),
            lot == share(self.nodes@, self.natural@, p as int, inner),
            lot >= 0,
        ensures
            r == capped(cursor(self.nodes@, self.natural@, p as int, k as int, inner)),
            0 <= cursor(self.nodes@, self.natural@, p as int, k as int, inner),
    {
        let node = &self.nodes[p];
        let horizontal = node.conf.mode.is_horizontal();
        let mut acc: i128 = 0;
        let mut j: usize = 0;
        while j < k
            invariant
                self.wf(),
                p < self.nodes@.len(),
                *node == self.nodes@[p as int],
                k <= node.children@.len(),
                horizontal == node.conf.mode.is_horizontal(),
                lot == share(self.nodes@, self.natural@, p as int, inner),
                lot >= 0,
                j <= k,
                0 <= cursor(self.nodes@, self.natural@, p as int, j as int, inner),
                acc == capped(cursor(self.nodes@, self.natural@, p as int, j as int, inner)),
            decreases k - j,
        {
            let c = node.children[j];
            assert(child_ok(self.nodes@, p as int, j as int));
            let ext = self.axis_size_of(c, inner, horizontal, Some(lot));
            let step: i128 = ext as i128 + span_val(self.nodes[c].conf.margin, horizontal)
                + node.conf.spacing as i128;
            acc = if acc + step > FAR {
                FAR
            } else {
                acc + step
            };
            j += 1;
        }
        acc
    }

    /// The final position and size that the rules give node `j`, from the final
    /// shape of its parent.
    fn shape_of(&self, j: usize) -> (r: (Vec2, Vec2))
        requires
            self.wf(),
            j < self.nodes@.len(),
        ensures
            r.1 == own_size(self.nodes@, self.natural@, self.sizes@, self.screen, j as int),
            r.0 == own_pos(self.nodes@, self.natural@, self.sizes@, self.places@, self.screen, j as int),
            r.1.x >= 0,
            r.1.y >= 0,
    {
        match self.nodes[j].parent {
            None => {
                let size = Vec2 {
                    x: self.axis_size_of(j, self.screen, true, None),
                    y: self.axis_size_of(j, self.screen, false, None),
                };
                let pos = self.nodes[j].conf.position.relative(size, self.screen, None);
                (pos, size)
            },
            Some(p) => {
                assert(parent_ok(self.nodes@, j as int));
                let parent = &self.nodes[p];
                let k = self.nodes[j].slot;
                let psize = self.sizes[p];
                let pplace = self.places[p];
                let pad = parent.conf.padding;
                let margin = self.nodes[j].conf.margin;
                let inner = inner_val(psize, pad);
                let lot = self.share_of(p, inner);
                let size = self.child_size_of(p, k, inner, lot);
                let cur = self.cursor_of(p, k, inner, lot);
                let horizontal = parent.conf.mode.is_horizontal();
                let main: i128 = if !parent.conf.mode.is_reverse() {
                    pick_of(pplace, horizontal) as i128 + lead_val(pad, horizontal) + cur + lead_val(
                        margin,
                        horizontal,
                    )
                } else {
                    pick_of(pplace, horizontal) as i128 + pick_of(psize, horizontal) as i128 - trail_val(
                        pad,
                        horizontal,
                    ) - cur - trail_val(margin, horizontal) - pick_of(size, horizontal) as i128
                };
                let outer: i128 = pick_of(size, !horizontal) as i128 + span_val(margin, !horizontal);
                let slack: i128 = pick_of(inner, !horizontal) as i128 - outer;
                let cross: i128 = pick_of(pplace, !horizontal) as i128 + lead_val(pad, !horizontal)
                    + lead_val(margin, !horizontal) + match parent.conf.align {
                    Align::Start => 0,
                    Align::Center => half(slack),
                    Align::End => slack,
                };
                proof {
                    let nodes = self.nodes@;
                    assert(nodes[p as int].children@[k as int] == j);
                    assert(pick(size, horizontal) == child_axis_size(
                        nodes,
                        self.natural@,
                        p as int,
                        k as int,
                        inner,
                        horizontal,
                    ));
                    assert(pick(size, !horizontal) == child_axis_size(
                        nodes,
                        self.natural@,
                        p as int,
                        k as int,
                        inner,
                        !horizontal,
                    ));
                    assert(cross == child_cross_pos(nodes, self.natural@, p as int, k as int, pplace, psize));
                    assert(saturated(main as int) == saturated(
                        child_main_pos(nodes, self.natural@, p as int, k as int, pplace, psize),
                    ));
                }
                let m = saturate(main);
                let c = saturate(cross);
                let pos = if horizontal {
                    Vec2 { x: m, y: c }
                } else {
                    Vec2 { x: c, y: m }
                };
                (pos, size)
            },
        }
    }

    /// Resolves the geometry of every node.
    ///
    /// Afterwards the stored geometry satisfies the layout equations and no size
    /// is negative. The tree itself is not touched. Resolving a tree whose
    /// geometry already satisfies the equations changes nothing.
    pub fn resolve(&mut self)
        requires
            old(self).wf(),
        ensures
            final(self).wf(),
            final(self).nodes == old(self).nodes,
            final(self).screen == old(self).screen,
            !final(self).dirty,
            final(self).is_resolved(),
            forall|j: int|
                0 <= j < final(self).sizes@.len() ==> (#[trigger] final(self).sizes@[j]).x >= 0 && final(self).sizes@[j].y
                    >= 0,
            old(self).is_resolved() ==> final(self).natural@ == old(self).natural@ && final(self).sizes@
                == old(self).sizes@ && final(self).places@ == old(self).places@,
    {
        self.dirty = true;
        let n = self.nodes.len();
        let mut p: usize = n;
        while p > 0
            invariant
                self.wf(),
                self.dirty,
                self.nodes == old(self).nodes,
                self.screen == old(self).screen,
                self.sizes == old(self).sizes,
                self.places == old(self).places,
                n == self.nodes@.len(),
                p <= n,
                forall|j: int|
                    p <= j < n ==> #[trigger] natural_at(self.nodes@, self.natural@, self.screen, j),
                old(self).is_resolved() ==> self.natural@ == old(self).natural@,
            decreases p,
        {
            p -= 1;
            let v = self.natural_of(p);
            let ghost before = self.natural@;
            self.natural.set(p, v);
            proof {
                assert forall|j: int| p <= j < n implies #[trigger] natural_at(
                    self.nodes@,
                    self.natural@,
                    self.screen,
                    j,
                ) by {
                    let kids = self.nodes@[j].children@;
                    assert forall|i: int| 0 <= i < kids.len() implies before[#[trigger] kids[i] as int]
                        == self.natural@[kids[i] as int] by {
                        assert(child_ok(self.nodes@, j, i));
                    }
                    lemma_content_frame(self.nodes@, before, self.natural@, kids, kids.len() as int, true);
                    lemma_content_frame(self.nodes@, before, self.natural@, kids, kids.len() as int, false);
                    assert(natural_rule(self.nodes@, self.natural@, self.screen, j) == natural_rule(
                        self.nodes@,
                        before,
                        self.screen,
                        j,
                    ));
                    if j > p {
                        assert(natural_at(self.nodes@, before, self.screen, j));
                    }
                }
                if old(self).is_resolved() {
                    assert(natural_at(old(self).nodes@, old(self).natural@, old(self).screen, p as int));
                    assert(self.natural@ =~= old(self).natural@);
                }
            }
        }
        let mut j: usize = 0;
        while j < n
            invariant
                self.wf(),
                self.dirty,
                self.nodes == old(self).nodes,
                self.screen == old(self).screen,
                n == self.nodes@.len(),
                j <= n,
                self.naturals_hold(),
                forall|i: int|
                    0 <= i < j ==> #[trigger] shape_at(
                        self.nodes@,
                        self.natural@,
                        self.sizes@,
                        self.places@,
                        self.screen,
                        i,
                    ),
                forall|i: int| 0 <= i < j ==> (#[trigger] self.sizes@[i]).x >= 0 && self.sizes@[i].y >= 0,
                old(self).is_resolved() ==> self.natural@ == old(self).natural@ && self.sizes@ == old(self).sizes@
                    && self.places@ == old(self).places@,
            decreases n - j,
        {
            let (pos, size) = self.shape_of(j);
            let ghost sizes_before = self.sizes@;
            let ghost places_before = self.places@;
            self.sizes.set(j, size);
            self.places.set(j, pos);
            proof {
                assert forall|i: int| 0 <= i <= j implies #[trigger] shape_at(
                    self.nodes@,
                    self.natural@,
                    self.sizes@,
                    self.places@,
                    self.screen,
                    i,
                ) by {
                    assert(parent_ok(self.nodes@, i));
                    if i < j {
                        assert(shape_at(self.nodes@, self.natural@, sizes_before, places_before, self.screen, i));
                    }
                    assert(own_size(self.nodes@, self.natural@, self.sizes@, self.screen, i) == own_size(
                        self.nodes@,
                        self.natural@,
                        sizes_before,
                        self.screen,
                        i,
                    ));
                    assert(own_pos(
                        self.nodes@,
                        self.natural@,
                        self.sizes@,
                        self.places@,
                        self.screen,
                        i,
                    ) == own_pos(
                        self.nodes@,
                        self.natural@,
                        sizes_before,
                        places_before,
                        self.screen,
                        i,
                    ));
                }
                if old(self).is_resolved() {
                    assert(shape_at(
                        old(self).nodes@,
                        old(self).natural@,
                        old(self).sizes@,
                        old(self).places@,
                        old(self).screen,
                        j as int,
                    ));
                    assert(self.sizes@ =~= old(self).sizes@);
                    assert(self.places@ =~= old(self).places@);
                }
            }
            j += 1;
        }
        self.dirty = false;
    }

    /// The position and size of node `j`. The tree is resolved first where its
    /// geometry is marked stale, and left alone where it is not.
    pub fn shape(&mut self, j: usize) -> (r: (Vec2, Vec2))
        requires
            old(self).wf(),
            j < old(self).nodes@.len(),
        ensures
            final(self).wf(),
            final(self).nodes == old(self).nodes,
            final(self).screen == old(self).screen,
            final(self).is_resolved(),
            !final(self).dirty,
            !old(self).dirty ==> *final(self) == *old(self),
            old(self).is_resolved() ==> final(self).natural@ == old(self).natural@ && final(self).sizes@
                == old(self).sizes@ && final(self).places@ == old(self).places@,
            r == (final(self).places@[j as int], final(self).sizes@[j as int]),
            r.1.x >= 0 && r.1.y >= 0,
    {
        if self.dirty {
            self.resolve();
        } else {
            proof {
                crate::layout_facts::lemma_sizes_nonnegative(self, j as int);
            }
        }
        (self.places[j], self.sizes[j])
    }

    /// Whether the children of node `p` take more room along its flow than its
    /// inner extent offers, by the sizes stored for them. Children that spill
    /// keep their places; the flag is for the caller to act on.
    pub fn overflows(&self, p: usize) -> (r: bool)
        requires
            self.wf(),
            p < self.nodes@.len(),
        ensures
            r == spills(
                self.nodes@,
                self.natural@,
                p as int,
                inner_of(self.sizes@[p as int], self.nodes@[p as int].conf.padding),
            ),
    {
        let node = &self.nodes[p];
        let n = node.children.len();
        if n == 0 {
            false
        } else {
            let inner = inner_val(self.sizes[p], node.conf.padding);
            let lot = self.share_of(p, inner);
            let cur = self.cursor_of(p, n, inner, lot);
            cur - node.conf.spacing as i128 > pick_of(inner, node.conf.mode.is_horizontal()) as i128
        }
    }
}

} // verus!
