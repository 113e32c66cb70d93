//! The widget compositor: drawable units queued during a tick, handed out
//! once per tick in stacking order.
use vstd::prelude::*;

verus! {

/// A rectangle of character cells.
#[derive(Clone, Copy, Debug, PartialEq, Eq, Structural)]
pub struct Region {
    pub x: u16,
    pub y: u16,
    pub width: u16,
    pub height: u16,
}

/// The first column past `r`, saturated at the largest coordinate.
pub open spec fn right_edge(r: Region) -> int {
    if r.x + r.width > u16::MAX { u16::MAX as int } else { r.x + r.width }
}

/// The first row past `r`, saturated at the largest coordinate.
pub open spec fn bottom_edge(r: Region) -> int {
    if r.y + r.height > u16::MAX { u16::MAX as int } else { r.y + r.height }
}

/// Whether the cell at column `cx`, row `cy` lies in `r`.
pub open spec fn covers(r: Region, cx: int, cy: int) -> bool {
    r.x <= cx < right_edge(r) && r.y <= cy < bottom_edge(r)
}

pub open spec fn max_of(a: int, b: int) -> int {
    if a >= b { a } else { b }
}

pub open spec fn min_of(a: int, b: int) -> int {
    if a <= b { a } else { b }
}

/// The visible part of `r` inside `bounds`; empty (zero width or height) where
/// they do not meet.
pub open spec fn clip_spec(r: Region, bounds: Region) -> Region {
    let x1 = max_of(r.x as int, bounds.x as int);
    let y1 = max_of(r.y as int, bounds.y as int);
    let x2 = min_of(right_edge(r), right_edge(bounds));
    let y2 = min_of(bottom_edge(r), bottom_edge(bounds));
    Region {
        x: x1 as u16,
        y: y1 as u16,
        width: if x2 > x1 { (x2 - x1) as u16 } else { 0 },
        height: if y2 > y1 { (y2 - y1) as u16 } else { 0 },
    }
}

impl Region {
    pub fn new(x: u16, y: u16, width: u16, height: u16) -> (r: Region)
        ensures
            r == (Region { x, y, width, height }),
    {
        Region { x, y, width, height }
    }

    /// The part of this region that lies inside `bounds`: exactly the cells
    /// covered by both.
    pub fn clip(&self, bounds: &Region) -> (r: Region)
        ensures
            r == clip_spec(*self, *bounds),
            forall|cx: int, cy: int|
                covers(r, cx, cy) <==> covers(*self, cx, cy) && covers(*bounds, cx, cy),
    {
        let x1 = if self.x >= bounds.x { self.x } else { bounds.x };
        let y1 = if self.y >= bounds.y { self.y } else { bounds.y };
        let sr = self.x.saturating_add(self.width);
        let br = bounds.x.saturating_add(bounds.width);
        let sb = self.y.saturating_add(self.height);
        let bb = bounds.y.saturating_add(bounds.height);
        let x2 = if sr <= br { sr } else { br };
        let y2 = if sb <= bb { sb } else { bb };
        let r = Region {
            x: x1,
            y: y1,
            width: x2.saturating_sub(x1),
            height: y2.saturating_sub(y1),
        };
        r
    }
}


/// A pending paint operation: an opaque widget, the region it paints into and
/// its stacking order (higher paints later, on top).
pub struct ScopedWidget<W> {
    pub widget: W,
    pub area: Region,
    pub z_order: u32,
}

/// Whether the unit with key `ka` queued at `ia` paints before the unit with
/// key `kb` queued at `ib`: lower keys first, ties in queue order.
pub open spec fn paints_before(ka: u32, ia: int, kb: u32, ib: int) -> bool {
    ka < kb || (ka == kb && ia < ib)
}

/// `p` lists the queue positions `0..keys.len()` in the order of a stable sort
/// by key: the k-th unit painted is the one queued at `p[k]`.
///
/// Since `paints_before` is a strict total order on distinct positions, there
/// is exactly one such `p` for given keys.
pub open spec fn is_paint_order(keys: Seq<u32>, p: Seq<int>) -> bool {
    &&& p.len() == keys.len()
    &&& forall|k: int| 0 <= k < p.len() ==> 0 <= #[trigger] p[k] < keys.len()
    &&& forall|a: int, b: int|
        0 <= a < b < p.len() ==> paints_before(keys[#[trigger] p[a]], p[a], keys[#[trigger] p[b]], p[b])
}

/// The stacking-order keys of a queue, in queue order.
pub open spec fn z_orders<W>(units: Seq<ScopedWidget<W>>) -> Seq<u32> {
    units.map_values(|u: ScopedWidget<W>| u.z_order)
}

/// `painted` is `queued` rearranged along `p`.
pub open spec fn rearranged<W>(queued: Seq<ScopedWidget<W>>, p: Seq<int>, painted: Seq<ScopedWidget<W>>) -> bool {
    &&& painted.len() == p.len()
    &&& forall|k: int| 0 <= k < p.len() ==> #[trigger] painted[k] == queued[p[k]]
}

/// `painted` is `queued` in paint order.
pub open spec fn in_paint_order<W>(queued: Seq<ScopedWidget<W>>, painted: Seq<ScopedWidget<W>>) -> bool {
    exists|p: Seq<int>| is_paint_order(z_orders(queued), p) && rearranged(queued, p, painted)
}

/// The units queued during the current tick.
pub struct WidgetsToDraw<W> {
    pub widgets: Vec<ScopedWidget<W>>,
}

impl<W> WidgetsToDraw<W> {
    /// An empty queue.
    pub fn new() -> (r: WidgetsToDraw<W>)
        ensures
            r.widgets@.len() == 0,
    {
        WidgetsToDraw { widgets: Vec::new() }
    }

    /// Appends a unit; its region is not checked against any bounds.
    pub fn push_widget(&mut self, widget: W, area: Region, z_order: u32)
        ensures
            final(self).widgets@ == old(self).widgets@.push(ScopedWidget { widget, area, z_order }),
    {
        self.widgets.push(ScopedWidget { widget, area, z_order });
    }

    /// Empties the queue and returns its units in paint order: a stable sort
    /// by stacking order.
    pub fn drain_in_paint_order(&mut self) -> (r: Vec<ScopedWidget<W>>)
        ensures
            final(self).widgets@.len() == 0,
            in_paint_order(old(self).widgets@, r@),
    {
        let mut units: Vec<ScopedWidget<W>> = Vec::new();
        std::mem::swap(&mut self.widgets, &mut units);
        sort_stable_by_z_order(&mut units);
        units
    }
}

/// Sorts `v` stably by stacking order, by insertion.
fn sort_stable_by_z_order<W>(v: &mut Vec<ScopedWidget<W>>)
    ensures
        in_paint_order(old(v)@, final(v)@),
{
    let n = v.len();
    let ghost orig = v@;
    let ghost keys = z_orders(orig);
    let ghost mut p: Seq<int> = Seq::new(n as nat, |k: int| k);
    let mut i: usize = 0;
    while i < n
        invariant
            0 <= i <= n,
            orig.len() == n,
            keys == z_orders(orig),
            v@.len() == n,
            p.len() == n,
            forall|k: int| 0 <= k < n ==> 0 <= #[trigger] p[k] < n && v@[k] == orig[p[k]],
            forall|k: int| i <= k < n ==> #[trigger] p[k] == k,
            forall|k: int| 0 <= k < i ==> #[trigger] p[k] < i,
            forall|a: int, b: int|
                0 <= a < b < i ==> paints_before(keys[#[trigger] p[a]], p[a], keys[#[trigger] p[b]], p[b]),
        decreases n - i,
    {
        let ghost before = v@;
        let x = v.remove(i);
        let key = x.z_order;
        proof {
            assert(p[i as int] == i);
            assert(x == before[i as int]);
            assert(keys[i as int] == key);
        }
        let mut j: usize = i;
        while j > 0 && v[j - 1].z_order > key
            invariant
                0 <= j <= i,
                i < n,
                before.len() == n,
                v@ == before.remove(i as int),
                forall|k: int| j <= k < i ==> (#[trigger] v@[k]).z_order > key,
            decreases j,
        {
            j = j - 1;
        }
        let ghost removed = v@;
        v.insert(j, x);
        proof {
            assert(v@ == removed.insert(j as int, before[i as int]));
            assert(removed == before.remove(i as int));
            let q = p;
            p = q.remove(i as int).insert(j as int, i as int);
            assert forall|k: int| 0 <= k < n implies 0 <= #[trigger] p[k] < n && v@[k] == orig[p[k]] by {
                if k < j {
                    assert(p[k] == q[k]);
                    assert(v@[k] == before[k]);
                } else if k == j {
                    assert(p[k] == i);
                    assert(q[i as int] == i);
                    assert(v@[k] == before[i as int]);
                } else if k <= i {
                    assert(p[k] == q[k - 1]);
                    assert(v@[k] == before[k - 1]);
                } else {
                    assert(p[k] == q[k]);
                    assert(v@[k] == before[k]);
                }
            }
            assert forall|k: int| i + 1 <= k < n implies #[trigger] p[k] == k by {
                assert(p[k] == q[k]);
            }
            assert forall|k: int| 0 <= k < i + 1 implies #[trigger] p[k] < i + 1 by {
                if k < j {
                    assert(p[k] == q[k]);
                } else if k > j {
                    assert(p[k] == q[k - 1]);
                }
            }
            assert forall|k: int| 0 <= k < n implies keys[#[trigger] p[k]] == v@[k].z_order by {
                assert(v@[k] == orig[p[k]]);
            }
            assert forall|a: int, b: int| 0 <= a < b < i + 1 implies
                paints_before(keys[#[trigger] p[a]], p[a], keys[#[trigger] p[b]], p[b]) by {
                if b < j {
                    assert(p[a] == q[a] && p[b] == q[b]);
                } else if b == j {
                    assert(p[a] == q[a]);
                    assert(p[a] < i);
                    if a < j - 1 {
                        assert(paints_before(keys[q[a]], q[a], keys[q[j - 1]], q[j - 1]));
                    }
                    assert(keys[q[j - 1]] == before[j - 1].z_order);
                } else if a > j {
                    assert(p[a] == q[a - 1] && p[b] == q[b - 1]);
                } else if a == j {
                    assert(p[b] == q[b - 1]);
                    assert(keys[q[b - 1]] == v@[b].z_order);
                } else {
                    assert(p[a] == q[a] && p[b] == q[b - 1]);
                }
            }
        }
        i = i + 1;
    }
    proof {
        assert(is_paint_order(keys, p));
        assert(rearranged(orig, p, v@));
    }
}

/// Painting `painted` in sequence, each unit overwriting the cells it covers,
/// leaves the unit at position `k` showing at cell (`cx`, `cy`): it covers the
/// cell and no unit painted after it does.
pub open spec fn shows_at<W>(painted: Seq<ScopedWidget<W>>, k: int, cx: int, cy: int) -> bool {
    &&& 0 <= k < painted.len()
    &&& covers(painted[k].area, cx, cy)
    &&& forall|m: int| k < m < painted.len() ==> !covers(#[trigger] painted[m].area, cx, cy)
}

/// Of two units with different stacking orders, the one with the higher order
/// paints later, so where the two overlap the lower one does not show.
pub proof fn higher_order_paints_later<W>(
    queued: Seq<ScopedWidget<W>>,
    p: Seq<int>,
    painted: Seq<ScopedWidget<W>>,
    a: int,
    b: int,
)
    requires
        is_paint_order(z_orders(queued), p),
        rearranged(queued, p, painted),
        0 <= a < painted.len(),
        0 <= b < painted.len(),
        painted[a].z_order < painted[b].z_order,
    ensures
        a < b,
        forall|cx: int, cy: int| covers(painted[b].area, cx, cy) ==> !shows_at(painted, a, cx, cy),
{
    let keys = z_orders(queued);
    assert(keys[p[a]] == painted[a].z_order && keys[p[b]] == painted[b].z_order);
    if b < a {
        assert(paints_before(keys[p[b]], p[b], keys[p[a]], p[a]));
    }
}

/// Of two units with equal stacking order, the one queued later paints later,
/// so where the two overlap the earlier one does not show.
pub proof fn later_insertion_paints_later<W>(
    queued: Seq<ScopedWidget<W>>,
    p: Seq<int>,
    painted: Seq<ScopedWidget<W>>,
    a: int,
    b: int,
)
    requires
        is_paint_order(z_orders(queued), p),
        rearranged(queued, p, painted),
        0 <= a < painted.len(),
        0 <= b < painted.len(),
        painted[a].z_order == painted[b].z_order,
        p[a] < p[b],
    ensures
        a < b,
        forall|cx: int, cy: int| covers(painted[b].area, cx, cy) ==> !shows_at(painted, a, cx, cy),
{
    let keys = z_orders(queued);
    assert(keys[p[a]] == painted[a].z_order && keys[p[b]] == painted[b].z_order);
    if b < a {
        assert(paints_before(keys[p[b]], p[b], keys[p[a]], p[a]));
    }
}

} // verus!
