//! The point store: the authoritative points, edges and overlay labels of
//! one loaded dataset, together with the bounds derived from the points.
//! Points are replaced wholesale on a dataset load, never patched; edges
//! whose endpoints do not resolve to loaded points are dropped at load
//! time, never carried forward as dangling references.

use vstd::prelude::*;

use crate::geom::{bounded, Bounds, PlanePoint};

verus! {

/// One loaded point: a stable id unique within the dataset, its corrected
/// world position and its display name.
#[derive(Clone, Debug)]
pub struct Point {
    pub id: u64,
    pub pos: PlanePoint,
    pub name: String,
}

/// One connection between two loaded points, by their ids.
#[derive(Clone, Copy, PartialEq, Eq, Structural, Debug)]
pub struct Edge {
    pub id: u64,
    pub a: u64,
    pub b: u64,
}

/// One static overlay label with its anchor position.
#[derive(Clone, Debug)]
pub struct Label {
    pub text: String,
    pub anchor: PlanePoint,
}

/// No point id occurs twice.
pub open spec fn unique_point_ids(s: Seq<Point>) -> bool {
    forall|a: int, b: int| 0 <= a < b < s.len() ==> (#[trigger] s[a]).id != (#[trigger] s[b]).id
}

/// Every point position lies in the accepted coordinate range.
pub open spec fn all_points_bounded(s: Seq<Point>) -> bool {
    forall|k: int| 0 <= k < s.len() ==> bounded((#[trigger] s[k]).pos)
}

/// Some loaded point carries this id.
pub open spec fn has_point(s: Seq<Point>, id: u64) -> bool {
    exists|k: int| 0 <= k < s.len() && (#[trigger] s[k]).id == id
}

/// Both endpoints of the edge resolve to loaded points.
pub open spec fn edge_resolves(s: Seq<Point>, e: Edge) -> bool {
    has_point(s, e.a) && has_point(s, e.b)
}

/// The point with id `id` sits at `p`.
pub open spec fn resolves_to(s: Seq<Point>, id: u64, p: PlanePoint) -> bool {
    exists|i: int| 0 <= i < s.len() && (#[trigger] s[i]).id == id && s[i].pos == p
}

/// `ob` is exactly the bounds of `s`: every point lies inside, and each of
/// the four box coordinates is observed at some point. An empty point set
/// has no bounds.
pub open spec fn bounds_correct(s: Seq<Point>, ob: Option<Bounds>) -> bool {
    match ob {
        Option::None => s.len() == 0,
        Option::Some(b) => {
            &&& s.len() > 0
            &&& b.wf()
            &&& forall|k: int| 0 <= k < s.len() ==> b.contains_pt((#[trigger] s[k]).pos)
            &&& exists|k: int| 0 <= k < s.len() && (#[trigger] s[k]).pos.x == b.min.x
            &&& exists|k: int| 0 <= k < s.len() && (#[trigger] s[k]).pos.x == b.max.x
            &&& exists|k: int| 0 <= k < s.len() && (#[trigger] s[k]).pos.y == b.min.y
            &&& exists|k: int| 0 <= k < s.len() && (#[trigger] s[k]).pos.y == b.max.y
        },
    }
}

/// Computes the bounds of a point set: the minimum and maximum coordinate
/// observed on each axis.
pub fn compute_bounds(points: &Vec<Point>) -> (r: Option<Bounds>)
    requires
        all_points_bounded(points@),
    ensures
        bounds_correct(points@, r),
{
    let n: usize = points.len();
    if n == 0 {
        return Option::None;
    }
    let mut mn: PlanePoint = points[0].pos;
    let mut mx: PlanePoint = points[0].pos;
    let ghost mut wminx: int = 0;
    let ghost mut wmaxx: int = 0;
    let ghost mut wminy: int = 0;
    let ghost mut wmaxy: int = 0;
    let mut i: usize = 1;
    while i < n
        invariant
            1 <= i <= n,
            n == points@.len(),
            all_points_bounded(points@),
            0 <= wminx < i && points@[wminx].pos.x == mn.x,
            0 <= wmaxx < i && points@[wmaxx].pos.x == mx.x,
            0 <= wminy < i && points@[wminy].pos.y == mn.y,
            0 <= wmaxy < i && points@[wmaxy].pos.y == mx.y,
            forall|k: int|
                0 <= k < i ==> mn.x <= (#[trigger] points@[k]).pos.x <= mx.x && mn.y
                    <= points@[k].pos.y <= mx.y,
        decreases n - i,
    {
        let p: PlanePoint = points[i].pos;
        if p.x < mn.x {
            mn.x = p.x;
            proof {
                wminx = i as int;
            }
        }
        if p.x > mx.x {
            mx.x = p.x;
            proof {
                wmaxx = i as int;
            }
        }
        if p.y < mn.y {
            mn.y = p.y;
            proof {
                wminy = i as int;
            }
        }
        if p.y > mx.y {
            mx.y = p.y;
            proof {
                wmaxy = i as int;
            }
        }
        i += 1;
    }
    proof {
        assert(bounded(points@[wminx].pos));
        assert(bounded(points@[wmaxx].pos));
        assert(bounded(points@[wminy].pos));
        assert(bounded(points@[wmaxy].pos));
        assert(mn.x <= points@[0].pos.x <= mx.x);
    }
    Option::Some(Bounds { min: mn, max: mx })
}

/// Whether some loaded point carries `id`.
pub fn contains_id(points: &Vec<Point>, id: u64) -> (r: bool)
    ensures
        r == has_point(points@, id),
{
    let n: usize = points.len();
    let mut i: usize = 0;
    while i < n
        invariant
            0 <= i <= n,
            n == points@.len(),
            forall|k: int| 0 <= k < i ==> (#[trigger] points@[k]).id != id,
        decreases n - i,
    {
        if points[i].id == id {
            return true;
        }
        i += 1;
    }
    false
}

/// The dataset owner: points, validated edges, overlay labels and the
/// derived bounds.
pub struct PointStore {
    pub points: Vec<Point>,
    pub edges: Vec<Edge>,
    pub labels: Vec<Label>,
    pub bounds: Option<Bounds>,
}

impl PointStore {
    /// Internal consistency of one loaded dataset.
    pub open spec fn wf(self) -> bool {
        &&& unique_point_ids(self.points@)
        &&& all_points_bounded(self.points@)
        &&& forall|e: Edge| #[trigger] self.edges@.contains(e) ==> edge_resolves(self.points@, e)
        &&& bounds_correct(self.points@, self.bounds)
    }

    /// An empty store: nothing loaded yet.
    pub fn new() -> (s: PointStore)
        ensures
            s.wf(),
            s.points@.len() == 0,
            s.edges@.len() == 0,
            s.labels@.len() == 0,
            s.bounds is None,
    {
        PointStore {
            points: Vec::new(),
            edges: Vec::new(),
            labels: Vec::new(),
            bounds: Option::None,
        }
    }

    /// Replaces the loaded points wholesale, recomputes the bounds and
    /// drops every previously held edge that no longer resolves. Labels
    /// are untouched.
    pub fn replace_points(&mut self, new_points: Vec<Point>)
        requires
            old(self).wf(),
            unique_point_ids(new_points@),
            all_points_bounded(new_points@),
        ensures
            final(self).wf(),
            final(self).points@ == new_points@,
            final(self).labels@ == old(self).labels@,
            bounds_correct(new_points@, final(self).bounds),
            forall|e: Edge|
                #![trigger final(self).edges@.contains(e)]
                #![trigger old(self).edges@.contains(e)]
                final(self).edges@.contains(e) <==> (old(self).edges@.contains(e) && edge_resolves(
                    new_points@,
                    e,
                )),
    {
        let bounds = compute_bounds(&new_points);
        let kept = filter_edges(&self.edges, &new_points);
        self.points = new_points;
        self.edges = kept;
        self.bounds = bounds;
    }

    /// Replaces the edge set: of the given edges exactly those survive
    /// whose endpoints resolve to loaded points.
    pub fn set_edges(&mut self, new_edges: Vec<Edge>)
        requires
            old(self).wf(),
        ensures
            final(self).wf(),
            final(self).points@ == old(self).points@,
            final(self).labels@ == old(self).labels@,
            final(self).bounds == old(self).bounds,
            forall|e: Edge|
                #![trigger final(self).edges@.contains(e)]
                #![trigger new_edges@.contains(e)]
                final(self).edges@.contains(e) <==> (new_edges@.contains(e) && edge_resolves(
                    old(self).points@,
                    e,
                )),
    {
        let kept = filter_edges(&new_edges, &self.points);
        self.edges = kept;
    }

    /// Replaces the overlay labels.
    pub fn set_labels(&mut self, new_labels: Vec<Label>)
        requires
            old(self).wf(),
        ensures
            final(self).wf(),
            final(self).points@ == old(self).points@,
            final(self).edges@ == old(self).edges@,
            final(self).bounds == old(self).bounds,
            final(self).labels@ == new_labels@,
    {
        self.labels = new_labels;
    }

    /// Loads one dataset: points and edges together, replacing both.
    pub fn load(&mut self, new_points: Vec<Point>, new_edges: Vec<Edge>)
        requires
            old(self).wf(),
            unique_point_ids(new_points@),
            all_points_bounded(new_points@),
        ensures
            final(self).wf(),
            final(self).points@ == new_points@,
            final(self).labels@ == old(self).labels@,
            bounds_correct(new_points@, final(self).bounds),
            forall|e: Edge|
                #![trigger final(self).edges@.contains(e)]
                #![trigger new_edges@.contains(e)]
                final(self).edges@.contains(e) <==> (new_edges@.contains(e) && edge_resolves(
                    new_points@,
                    e,
                )),
    {
        let bounds = compute_bounds(&new_points);
        let kept = filter_edges(&new_edges, &new_points);
        self.points = new_points;
        self.edges = kept;
        self.bounds = bounds;
    }

    /// Resolves every stored edge to its endpoint coordinates, for a
    /// renderer that should not need a point lookup per edge. Because
    /// edges with unresolvable endpoints were dropped at load time, every
    /// stored edge resolves; no case can fail.
    pub fn edge_segments(&self) -> (segs: Vec<(PlanePoint, PlanePoint)>)
        requires
            self.wf(),
        ensures
            segs@.len() == self.edges@.len(),
            forall|k: int|
                #![trigger segs@[k]]
                0 <= k < segs@.len() ==> resolves_to(self.points@, self.edges@[k].a, segs@[k].0)
                    && resolves_to(self.points@, self.edges@[k].b, segs@[k].1),
    {
        let n: usize = self.edges.len();
        let mut segs: Vec<(PlanePoint, PlanePoint)> = Vec::new();
        let mut k: usize = 0;
        while k < n
            invariant
                0 <= k <= n,
                n == self.edges@.len(),
                self.wf(),
                segs@.len() == k,
                forall|m: int|
                    #![trigger segs@[m]]
                    0 <= m < k ==> resolves_to(self.points@, self.edges@[m].a, segs@[m].0)
                        && resolves_to(self.points@, self.edges@[m].b, segs@[m].1),
            decreases n - k,
        {
            let e: Edge = self.edges[k];
            proof {
                assert(self.edges@.contains(e)) by {
                    assert(self.edges@[k as int] == e);
                }
                assert(edge_resolves(self.points@, e));
            }
            let pa = self.position_of(e.a);
            let pb = self.position_of(e.b);
            match (pa, pb) {
                (Option::Some(a), Option::Some(b)) => {
                    segs.push((a, b));
                    proof {
                        assert(segs@[k as int] == (a, b));
                        assert(resolves_to(self.points@, e.a, a));
                        assert(resolves_to(self.points@, e.b, b));
                    }
                },
                _ => {
                    proof {
                        assert(false);
                    }
                },
            }
            k += 1;
        }
        segs
    }

    /// Looks up the position of the point with the given id.
    pub fn position_of(&self, id: u64) -> (r: Option<PlanePoint>)
        ensures
            r is Some <==> has_point(self.points@, id),
            match r {
                Option::None => !has_point(self.points@, id),
                Option::Some(p) => resolves_to(self.points@, id, p),
            },
    {
        let n: usize = self.points.len();
        let mut i: usize = 0;
        while i < n
            invariant
                0 <= i <= n,
                n == self.points@.len(),
                forall|k: int| 0 <= k < i ==> (#[trigger] self.points@[k]).id != id,
            decreases n - i,
        {
            if self.points[i].id == id {
                return Option::Some(self.points[i].pos);
            }
            i += 1;
        }
        Option::None
    }
}

/// Keeps exactly the edges whose endpoints resolve in `points`.
fn filter_edges(edges: &Vec<Edge>, points: &Vec<Point>) -> (kept: Vec<Edge>)
    ensures
        forall|e: Edge|
            #![trigger kept@.contains(e)]
            #![trigger edges@.contains(e)]
            kept@.contains(e) <==> (edges@.contains(e) && edge_resolves(points@, e)),
{
    let n: usize = edges.len();
    let mut kept: Vec<Edge> = Vec::new();
    let mut i: usize = 0;
    while i < n
        invariant
            0 <= i <= n,
            n == edges@.len(),
            forall|e: Edge|
                #![trigger kept@.contains(e)]
                kept@.contains(e) <==> (edges@.subrange(0, i as int).contains(e) && edge_resolves(
                    points@,
                    e,
                )),
        decreases n - i,
    {
        let e: Edge = edges[i];
        if contains_id(points, e.a) && contains_id(points, e.b) {
            kept.push(e);
        }
        proof {
            broadcast use vstd::seq_lib::lemma_seq_contains_after_push;

            assert(edges@.subrange(0, (i + 1) as int) =~= edges@.subrange(0, i as int).push(
                edges@[i as int],
            ));
        }
        i += 1;
    }
    proof {
        assert(edges@.subrange(0, n as int) =~= edges@);
    }
    kept
}

} // verus!
