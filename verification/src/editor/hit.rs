//! Hit-testing the artwork itself, not the rig on top of it, and the
//! selection box's handles.
//!
//! A click that misses every joint falls through to here, and here it asks
//! the only question that matters: is this point on the puppet? The answer
//! is taken against the mesh triangles rather than a bounding box, front-most
//! puppet first, and never on a hidden layer. The float tests themselves run
//! in the caller; what is decided here is which triangles can be read and
//! which puppet a set of hits means.

use vstd::prelude::*;
use crate::ids::{LayerId, PuppetId};

verus! {

/// Which corner of a selection box.
#[derive(Debug, Clone, Copy, PartialEq, Eq, Structural)]
pub enum Corner {
    BottomLeft,
    BottomRight,
    TopRight,
    TopLeft,
}

pub const CORNERS: [Corner; 4] = [
    Corner::BottomLeft,
    Corner::BottomRight,
    Corner::TopRight,
    Corner::TopLeft,
];

/// The corner diagonally across.
pub open spec fn opposite_of(c: Corner) -> Corner {
    match c {
        Corner::BottomLeft => Corner::TopRight,
        Corner::BottomRight => Corner::TopLeft,
        Corner::TopRight => Corner::BottomLeft,
        Corner::TopLeft => Corner::BottomRight,
    }
}

/// Whether a corner sits on the box's high edge along x.
pub open spec fn on_high_x(c: Corner) -> bool {
    c == Corner::BottomRight || c == Corner::TopRight
}

/// Whether a corner sits on the box's high edge along y.
pub open spec fn on_high_y(c: Corner) -> bool {
    c == Corner::TopRight || c == Corner::TopLeft
}

/// A corner of the box `lo..hi`, coordinates taken from `lo` or `hi` axis by
/// axis.
pub open spec fn corner_point<T>(c: Corner, lo: (T, T), hi: (T, T)) -> (T, T) {
    (if on_high_x(c) {
        hi.0
    } else {
        lo.0
    }, if on_high_y(c) {
        hi.1
    } else {
        lo.1
    })
}

impl Corner {
    /// This corner of the box `lo..hi`.
    pub fn of<T: Copy>(self, lo: (T, T), hi: (T, T)) -> (p: (T, T))
        ensures
            p == corner_point(self, lo, hi),
    {
        match self {
            Corner::BottomLeft => (lo.0, lo.1),
            Corner::BottomRight => (hi.0, lo.1),
            Corner::TopRight => (hi.0, hi.1),
            Corner::TopLeft => (lo.0, hi.1),
        }
    }

    /// The corner diagonally across, which stays put while this one is
    /// dragged: the anchor.
    pub fn opposite(self) -> (c: Corner)
        ensures
            c == opposite_of(self),
    {
        match self {
            Corner::BottomLeft => Corner::TopRight,
            Corner::BottomRight => Corner::TopLeft,
            Corner::TopRight => Corner::BottomLeft,
            Corner::TopLeft => Corner::BottomRight,
        }
    }
}

/// The anchor of the anchor is the corner being dragged, and the anchor is
/// never the dragged corner itself.
pub proof fn law_opposite_is_an_involution(c: Corner)
    ensures
        opposite_of(opposite_of(c)) == c,
        opposite_of(c) != c,
{
}

/// On a box with extent on both axes, every corner is its own point, and a
/// corner and its anchor differ on both axes — which is what lets a corner
/// drag scale the box rather than slide it.
pub proof fn law_corners_are_distinct_and_anchors_diagonal<T>(lo: (T, T), hi: (T, T), a: Corner, b: Corner)
    requires
        lo.0 != hi.0,
        lo.1 != hi.1,
    ensures
        a != b ==> corner_point(a, lo, hi) != corner_point(b, lo, hi),
        corner_point(a, lo, hi).0 != corner_point(opposite_of(a), lo, hi).0,
        corner_point(a, lo, hi).1 != corner_point(opposite_of(a), lo, hi).1,
{
    if a != b {
        assert(on_high_x(a) != on_high_x(b) || on_high_y(a) != on_high_y(b));
    }
}

} // verus!

verus! {

// ── mesh triangles ────────────────────────────────────────────────────

/// Whether the `k`th group of three indices names three positions that exist.
pub open spec fn triangle_readable(n: nat, tris: Seq<u32>, k: int) -> bool {
    &&& tris[3 * k] < n
    &&& tris[3 * k + 1] < n
    &&& tris[3 * k + 2] < n
}

/// The readable triangles among the first `k` complete groups of an index
/// list, in order, as position indices.
pub open spec fn readable_triangles(n: nat, tris: Seq<u32>, k: nat) -> Seq<(usize, usize, usize)>
    decreases k,
{
    if k == 0 {
        seq![]
    } else {
        let before = readable_triangles(n, tris, (k - 1) as nat);
        let j = k - 1;
        if triangle_readable(n, tris, j) {
            before.push((tris[3 * j] as usize, tris[3 * j + 1] as usize, tris[3 * j + 2] as usize))
        } else {
            before
        }
    }
}

/// The `g`th group of three indices, as position indices.
pub open spec fn group_of(tris: Seq<u32>, g: int) -> (usize, usize, usize) {
    (tris[3 * g] as usize, tris[3 * g + 1] as usize, tris[3 * g + 2] as usize)
}

/// Whether `x` is one of the first `k` groups of three indices, with all three
/// indices below `n`.
pub open spec fn is_whole_group(n: nat, tris: Seq<u32>, k: nat, x: (usize, usize, usize)) -> bool {
    exists|g: int|
        0 <= g < k && (#[trigger] group_of(tris, g)).0 < n && group_of(tris, g).1 < n
            && group_of(tris, g).2 < n && x == group_of(tris, g)
}

/// **Every whole triangle that names real positions is tested, and only
/// those.** Among the first `k` groups of three indices, a group whose three
/// indices are all below `n` is among the readable triangles, and each
/// readable triangle is such a group.
pub proof fn law_readable_triangles_are_the_whole_ones(n: nat, tris: Seq<u32>, k: nat)
    requires
        3 * k <= tris.len(),
    ensures
        forall|g: int|
            0 <= g < k && (#[trigger] group_of(tris, g)).0 < n && group_of(tris, g).1 < n && group_of(
                tris,
                g,
            ).2 < n ==> readable_triangles(n, tris, k).contains(group_of(tris, g)),
        forall|t: int|
            0 <= t < readable_triangles(n, tris, k).len() ==> is_whole_group(
                n,
                tris,
                k,
                #[trigger] readable_triangles(n, tris, k)[t],
            ),
    decreases k,
{
    if k == 0 {
        assert(readable_triangles(n, tris, k).len() == 0);
    }
    if k > 0 {
        let km = (k - 1) as nat;
        law_readable_triangles_are_the_whole_ones(n, tris, km);
        let before = readable_triangles(n, tris, km);
        let now = readable_triangles(n, tris, k);
        let j = k - 1;
        assert forall|g: int|
            0 <= g < k && (#[trigger] group_of(tris, g)).0 < n && group_of(tris, g).1 < n && group_of(
                tris,
                g,
            ).2 < n implies now.contains(group_of(tris, g)) by {
            if g < j {
                let t = choose|t: int| 0 <= t < before.len() && before[t] == group_of(tris, g);
                if triangle_readable(n, tris, j) {
                    assert(now[t] == before[t]);
                }
            } else {
                assert(now[now.len() - 1] == group_of(tris, g));
            }
        }
        assert forall|t: int| 0 <= t < now.len() implies is_whole_group(n, tris, k, #[trigger] now[t]) by {
            if t < before.len() {
                assert(now[t] == before[t]);
                assert(is_whole_group(n, tris, km, before[t]));
                let g = choose|g: int|
                    0 <= g < km && (#[trigger] group_of(tris, g)).0 < n && group_of(tris, g).1 < n
                        && group_of(tris, g).2 < n && before[t] == group_of(tris, g);
                assert(group_of(tris, g).0 < n);
            } else {
                assert(triangle_readable(n, tris, j));
                assert(now[t] == group_of(tris, j));
                assert(group_of(tris, j).0 < n);
            }
        }
    }
}

/// The triangles of a mesh that can be tested: every complete group of three
/// indices whose indices all name one of `position_count` positions.
///
/// A ragged list's trailing indices are ignored rather than read, and a
/// triangle naming a position past the end is skipped rather than panicking.
pub fn mesh_triangles(position_count: usize, triangles: &[u32]) -> (out: Vec<(usize, usize, usize)>)
    ensures
        out@ == readable_triangles(position_count as nat, triangles@, (triangles@.len() / 3) as nat),
        forall|i: int|
            0 <= i < out@.len() ==> (#[trigger] out@[i]).0 < position_count && out@[i].1
                < position_count && out@[i].2 < position_count,
{
    let len: usize = triangles.len();
    let groups: usize = len / 3;
    let mut out: Vec<(usize, usize, usize)> = Vec::new();
    let mut k: usize = 0;
    while k < groups
        invariant
            len == triangles@.len(),
            groups == len / 3,
            k <= groups,
            out@ == readable_triangles(position_count as nat, triangles@, k as nat),
            forall|i: int|
                0 <= i < out@.len() ==> (#[trigger] out@[i]).0 < position_count && out@[i].1
                    < position_count && out@[i].2 < position_count,
        decreases groups - k,
    {
        assert(3 * k + 2 < len) by (nonlinear_arith)
            requires
                k < groups,
                groups == len / 3,
        ;
        let a = triangles[3 * k] as usize;
        let b = triangles[3 * k + 1] as usize;
        let c = triangles[3 * k + 2] as usize;
        if a < position_count && b < position_count && c < position_count {
            out.push((a, b, c));
        }
        k = k + 1;
    }
    out
}

// ── layers and visibility ─────────────────────────────────────────────

/// What hit-testing reads of one layer: whether it is on the stage, and the
/// puppets on it, back to front.
#[derive(Debug, Clone)]
pub struct LayerView {
    pub id: LayerId,
    pub visible: bool,
    pub contents: Vec<PuppetId>,
}

/// The first layer with this id, as a map lookup finds it.
pub open spec fn layer_with(layers: Seq<LayerView>, id: LayerId) -> Option<LayerView>
    decreases layers.len(),
{
    if layers.len() == 0 {
        None
    } else if layers[0].id == id {
        Some(layers[0])
    } else {
        layer_with(layers.drop_first(), id)
    }
}

/// The first layer whose contents hold the puppet.
pub open spec fn layer_holding(layers: Seq<LayerView>, puppet: PuppetId) -> Option<LayerId>
    decreases layers.len(),
{
    if layers.len() == 0 {
        None
    } else if layers[0].contents@.contains(puppet) {
        Some(layers[0].id)
    } else {
        layer_holding(layers.drop_first(), puppet)
    }
}

/// Whether a layer exists and is on the stage.
pub open spec fn is_layer_visible(layers: Seq<LayerView>, id: LayerId) -> bool {
    match layer_with(layers, id) {
        Some(l) => l.visible,
        None => false,
    }
}

/// Whether a puppet is on the stage: it stands on no layer, or on a visible
/// one. Orphaned is not the same as hidden.
pub open spec fn is_puppet_visible(layers: Seq<LayerView>, puppet: PuppetId) -> bool {
    match layer_holding(layers, puppet) {
        Some(l) => is_layer_visible(layers, l),
        None => true,
    }
}

/// Is this layer on the stage?
pub fn layer_visible(layers: &Vec<LayerView>, id: LayerId) -> (b: bool)
    ensures
        b == is_layer_visible(layers@, id),
{
    let mut i: usize = 0;
    assert(layers@.subrange(0, layers@.len() as int) =~= layers@);
    while i < layers.len()
        invariant
            i <= layers.len(),
            layer_with(layers@, id) == layer_with(layers@.subrange(i as int, layers@.len() as int), id),
        decreases layers.len() - i,
    {
        let ghost rest = layers@.subrange(i as int, layers@.len() as int);
        assert(rest.drop_first() =~= layers@.subrange(i + 1, layers@.len() as int));
        if layers[i].id == id {
            return layers[i].visible;
        }
        i = i + 1;
    }
    false
}

/// The layer a puppet stands on.
pub fn layer_of(layers: &Vec<LayerView>, puppet: PuppetId) -> (r: Option<LayerId>)
    ensures
        r == layer_holding(layers@, puppet),
{
    let mut i: usize = 0;
    assert(layers@.subrange(0, layers@.len() as int) =~= layers@);
    while i < layers.len()
        invariant
            i <= layers.len(),
            layer_holding(layers@, puppet) == layer_holding(
                layers@.subrange(i as int, layers@.len() as int),
                puppet,
            ),
        decreases layers.len() - i,
    {
        let ghost rest = layers@.subrange(i as int, layers@.len() as int);
        assert(rest.drop_first() =~= layers@.subrange(i + 1, layers@.len() as int));
        if contains_puppet(&layers[i].contents, puppet) {
            return Some(layers[i].id);
        }
        i = i + 1;
    }
    None
}

fn contains_puppet(v: &Vec<PuppetId>, p: PuppetId) -> (b: bool)
    ensures
        b == v@.contains(p),
{
    let mut i: usize = 0;
    while i < v.len()
        invariant
            i <= v.len(),
            forall|j: int| 0 <= j < i ==> v@[j] != p,
        decreases v.len() - i,
    {
        if v[i] == p {
            assert(v@[i as int] == p);
            return true;
        }
        i = i + 1;
    }
    false
}

/// Is this puppet on the stage?
///
/// One predicate for everything that draws or clicks: hiding a layer hides
/// the whole puppet — artwork, wireframe, bones and joints.
pub fn puppet_visible(layers: &Vec<LayerView>, puppet: PuppetId) -> (b: bool)
    ensures
        b == is_puppet_visible(layers@, puppet),
{
    match layer_of(layers, puppet) {
        Some(l) => layer_visible(layers, l),
        None => true,
    }
}

/// The front-most puppet of a layer's contents that was hit.
pub open spec fn front_hit_in(contents: Seq<PuppetId>, hits: Seq<PuppetId>) -> Option<PuppetId>
    decreases contents.len(),
{
    if contents.len() == 0 {
        None
    } else if hits.contains(contents.last()) {
        Some(contents.last())
    } else {
        front_hit_in(contents.drop_last(), hits)
    }
}

/// The puppet a click means: walking the stack front to back, the first
/// visible layer with a hit puppet on it, and its front-most hit puppet.
pub open spec fn front_hit(order: Seq<LayerId>, layers: Seq<LayerView>, hits: Seq<PuppetId>) -> Option<
    (PuppetId, LayerId),
>
    decreases order.len(),
{
    if order.len() == 0 {
        None
    } else {
        let id = order.last();
        match layer_with(layers, id) {
            Some(l) => if l.visible {
                match front_hit_in(l.contents@, hits) {
                    Some(p) => Some((p, id)),
                    None => front_hit(order.drop_last(), layers, hits),
                }
            } else {
                front_hit(order.drop_last(), layers, hits)
            },
            None => front_hit(order.drop_last(), layers, hits),
        }
    }
}

proof fn lemma_front_hit_in_is_a_hit(contents: Seq<PuppetId>, hits: Seq<PuppetId>)
    ensures
        front_hit_in(contents, hits) matches Some(p) ==> hits.contains(p) && contents.contains(p),
    decreases contents.len(),
{
    if contents.len() > 0 {
        lemma_front_hit_in_is_a_hit(contents.drop_last(), hits);
        if let Some(p) = front_hit_in(contents.drop_last(), hits) {
            if !hits.contains(contents.last()) {
                let k = choose|k: int| 0 <= k < contents.drop_last().len() && contents.drop_last()[k] == p;
                assert(contents[k] == p);
            }
        }
        assert(contents[contents.len() - 1] == contents.last());
    }
}

proof fn lemma_layer_with_has_id(layers: Seq<LayerView>, id: LayerId)
    ensures
        layer_with(layers, id) matches Some(l) ==> l.id == id,
    decreases layers.len(),
{
    if layers.len() > 0 {
        lemma_layer_with_has_id(layers.drop_first(), id);
    }
}

/// What a click is answered with is always a hit puppet standing on a
/// visible layer of the stack: a hidden layer is not on the stage, so it is
/// never under the cursor.
pub proof fn law_a_click_only_lands_on_what_is_shown(
    order: Seq<LayerId>,
    layers: Seq<LayerView>,
    hits: Seq<PuppetId>,
)
    ensures
        front_hit(order, layers, hits) matches Some((p, l)) ==> {
            &&& hits.contains(p)
            &&& order.contains(l)
            &&& is_layer_visible(layers, l)
            &&& layer_with(layers, l) matches Some(v) && v.contents@.contains(p)
        },
    decreases order.len(),
{
    if order.len() > 0 {
        let id = order.last();
        law_a_click_only_lands_on_what_is_shown(order.drop_last(), layers, hits);
        lemma_layer_with_has_id(layers, id);
        assert(order[order.len() - 1] == id);
        if let Some(l) = layer_with(layers, id) {
            lemma_front_hit_in_is_a_hit(l.contents@, hits);
        }
        if let Some((p, lid)) = front_hit(order.drop_last(), layers, hits) {
            if front_hit(order, layers, hits) == front_hit(order.drop_last(), layers, hits) {
                let k = choose|k: int| 0 <= k < order.drop_last().len() && order.drop_last()[k] == lid;
                assert(order[k] == lid);
            }
        }
    }
}

fn front_hit_in_exec(contents: &Vec<PuppetId>, hits: &Vec<PuppetId>) -> (r: Option<PuppetId>)
    ensures
        r == front_hit_in(contents@, hits@),
{
    let mut n: usize = contents.len();
    assert(contents@.subrange(0, n as int) =~= contents@);
    while n > 0
        invariant
            n <= contents.len(),
            front_hit_in(contents@, hits@) == front_hit_in(contents@.subrange(0, n as int), hits@),
        decreases n,
    {
        let ghost pre = contents@.subrange(0, n as int);
        assert(pre.drop_last() =~= contents@.subrange(0, n - 1));
        assert(pre.last() == contents@[n - 1]);
        if contains_puppet(hits, contents[n - 1]) {
            return Some(contents[n - 1]);
        }
        n = n - 1;
    }
    None
}

fn find_layer(layers: &Vec<LayerView>, id: LayerId) -> (r: Option<usize>)
    ensures
        match r {
            Some(i) => i < layers@.len() && layer_with(layers@, id) == Some(layers@[i as int]),
            None => layer_with(layers@, id) is None,
        },
{
    let mut i: usize = 0;
    assert(layers@.subrange(0, layers@.len() as int) =~= layers@);
    while i < layers.len()
        invariant
            i <= layers.len(),
            layer_with(layers@, id) == layer_with(layers@.subrange(i as int, layers@.len() as int), id),
        decreases layers.len() - i,
    {
        let ghost rest = layers@.subrange(i as int, layers@.len() as int);
        assert(rest.drop_first() =~= layers@.subrange(i + 1, layers@.len() as int));
        if layers[i].id == id {
            return Some(i);
        }
        i = i + 1;
    }
    None
}

/// The puppet under a point, front-most first.
///
/// `order` is the stack back to front, `layers` the layers' records, and
/// `hits` the puppets whose artwork contains the point. Front-most, because
/// that is what the operator can see; a hidden layer is skipped.
pub fn puppet_at(order: &Vec<LayerId>, layers: &Vec<LayerView>, hits: &Vec<PuppetId>) -> (r: Option<
    (PuppetId, LayerId),
>)
    ensures
        r == front_hit(order@, layers@, hits@),
{
    let mut n: usize = order.len();
    assert(order@.subrange(0, n as int) =~= order@);
    while n > 0
        invariant
            n <= order.len(),
            front_hit(order@, layers@, hits@) == front_hit(order@.subrange(0, n as int), layers@, hits@),
        decreases n,
    {
        let ghost pre = order@.subrange(0, n as int);
        assert(pre.drop_last() =~= order@.subrange(0, n - 1));
        assert(pre.last() == order@[n - 1]);
        let id = order[n - 1];
        if let Some(i) = find_layer(layers, id) {
            let layer = &layers[i];
            if layer.visible {
                if let Some(p) = front_hit_in_exec(&layer.contents, hits) {
                    return Some((p, id));
                }
            }
        }
        n = n - 1;
    }
    None
}

} // verus!
