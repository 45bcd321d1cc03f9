//! The map engine: one plain owned object tying the point store, the
//! spatial index, the viewport, the visibility cache, the pulse tracker
//! and the tracked-entity markers together, with a lifetime independent of
//! any single frame. The index is rebuilt whole on every dataset load —
//! never patched — and the cache invariant says exactly when the cached
//! visible set can be trusted.

use vstd::prelude::*;

use crate::cache::{visible_ok, VisibilityCache};
use crate::geom::{bounded, within_radius, PlanePoint, MAX_RADIUS};
use crate::index::{IndexEntry, SpatialIndex};
use crate::messages::{MapSync, Target};
use crate::store::{
    all_points_bounded, edge_resolves, has_point, unique_point_ids, Edge, Label, Point,
    PointStore,
};
use crate::tracker::{alpha_at, NotificationTracker, PulseEntry, PulseSample};
use crate::viewport::{
    spec_to_world, to_world, ScreenPoint, ViewportState, MAX_HALF_DIAG, ORIGIN_LIMIT,
    SCREEN_LIMIT, ZOOM_UNIT,
};

verus! {

/// A tracked entity (for instance the player) anchored to a point.
#[derive(Clone, Copy, PartialEq, Eq, Structural, Debug)]
pub struct Marker {
    pub entity: u64,
    pub point: u64,
}

/// No entity carries two markers.
pub open spec fn unique_marker_entities(s: Seq<Marker>) -> bool {
    forall|a: int, b: int|
        0 <= a < b < s.len() ==> (#[trigger] s[a]).entity != (#[trigger] s[b]).entity
}

/// Some loaded point carries this id at this position.
pub open spec fn point_entry(s: Seq<Point>, e: IndexEntry) -> bool {
    exists|k: int|
        0 <= k < s.len() && (#[trigger] s[k]).id == e.id && s[k].pos == e.pos
}

/// The index holds exactly the (id, position) pairs of the loaded points.
pub open spec fn index_matches(entries: Seq<IndexEntry>, s: Seq<Point>) -> bool {
    forall|e: IndexEntry|
        #![trigger entries.contains(e)]
        #![trigger point_entry(s, e)]
        entries.contains(e) <==> point_entry(s, e)
}

/// Some loaded point with this id lies within `radius` of `center`.
pub open spec fn id_visible(s: Seq<Point>, center: PlanePoint, radius: int, id: u64) -> bool {
    exists|k: int|
        0 <= k < s.len() && (#[trigger] s[k]).id == id && within_radius(s[k].pos, center, radius)
}

/// Copies a list of ids, so the caller gets this frame's visible set
/// while the cache keeps its own.
fn clone_ids(ids: &Vec<u64>) -> (r: Vec<u64>)
    ensures
        r@ == ids@,
{
    let n: usize = ids.len();
    let mut out: Vec<u64> = Vec::new();
    let mut i: usize = 0;
    while i < n
        invariant
            0 <= i <= n,
            n == ids@.len(),
            out@ == ids@.subrange(0, i as int),
        decreases n - i,
    {
        out.push(ids[i]);
        proof {
            assert(ids@.subrange(0, (i + 1) as int) =~= ids@.subrange(0, i as int).push(
                ids@[i as int],
            ));
        }
        i += 1;
    }
    proof {
        assert(out@ =~= ids@);
    }
    out
}

/// The spatial map engine of one pane.
pub struct MapEngine {
    pub store: PointStore,
    pub index: SpatialIndex,
    pub viewport: Option<ViewportState>,
    pub cache: VisibilityCache,
    pub tracker: NotificationTracker,
    pub markers: Vec<Marker>,
    /// Half the rendering-surface diagonal last reported, kept across
    /// dataset loads so a reload keeps its surface.
    pub half_diag: i64,
}

impl MapEngine {
    /// When the cache is clean, its ids are exactly the points within the
    /// current visibility radius of the current center.
    pub open spec fn clean_cache_ok(self) -> bool {
        !self.cache.dirty ==> match self.viewport {
            Option::None => self.cache.ids@.len() == 0,
            Option::Some(v) => visible_ok(
                self.cache.ids@,
                self.index.entries(),
                v.center,
                v.radius as int,
            ),
        }
    }

    /// The engine invariant: a consistent store, an index that mirrors it
    /// exactly, a viewport exactly when a dataset is loaded, a trustworthy
    /// cache, and well-formed tracker and markers.
    pub open spec fn wf(self) -> bool {
        &&& self.store.wf()
        &&& self.index.wf()
        &&& index_matches(self.index.entries(), self.store.points@)
        &&& 0 <= self.half_diag <= MAX_HALF_DIAG
        &&& (self.store.bounds is None ==> self.viewport is None)
        &&& (self.store.bounds matches Option::Some(b) ==> self.viewport matches Option::Some(v)
            && v.wf(b) && v.half_diag == self.half_diag)
        &&& self.clean_cache_ok()
        &&& self.tracker.wf()
        &&& unique_marker_entities(self.markers@)
    }

    /// An engine with nothing loaded: every query is empty, every gesture
    /// a no-op.
    pub fn new() -> (e: MapEngine)
        ensures
            e.wf(),
            e.store.points@.len() == 0,
            e.store.edges@.len() == 0,
            e.store.labels@.len() == 0,
            e.viewport is None,
            e.cache.ids@.len() == 0,
            e.tracker.entries@.len() == 0,
            e.markers@.len() == 0,
    {
        MapEngine {
            store: PointStore::new(),
            index: SpatialIndex::Empty,
            viewport: Option::None,
            cache: VisibilityCache::new(),
            tracker: NotificationTracker::new(),
            markers: Vec::new(),
            half_diag: 0,
        }
    }

    /// Replaces the loaded point set: recomputes the bounds, rebuilds the
    /// spatial index from scratch, drops edges that no longer resolve,
    /// re-establishes the viewport (first load: centered on the bounds
    /// midpoint at zoom 1.0; reload: the pan position clamped into the new
    /// bounds) and invalidates the visibility cache.
    pub fn add_points(&mut self, new_points: Vec<Point>)
        requires
            old(self).wf(),
            unique_point_ids(new_points@),
            all_points_bounded(new_points@),
        ensures
            final(self).wf(),
            final(self).store.points@ == new_points@,
            final(self).store.labels@ == old(self).store.labels@,
            forall|e: Edge|
                #![trigger final(self).store.edges@.contains(e)]
                #![trigger old(self).store.edges@.contains(e)]
                final(self).store.edges@.contains(e) <==> (old(self).store.edges@.contains(e)
                    && edge_resolves(new_points@, e)),
            final(self).cache.dirty,
            final(self).tracker == old(self).tracker,
            final(self).markers@ == old(self).markers@,
            final(self).half_diag == old(self).half_diag,
            new_points@.len() == 0 ==> final(self).viewport is None,
            new_points@.len() > 0 && old(self).viewport is None ==> (final(self).viewport
                matches Option::Some(v) && final(self).store.bounds matches Option::Some(b)
                && v.center == b.spec_midpoint() && v.zoom_milli == ZOOM_UNIT),
            new_points@.len() > 0 ==> (old(self).viewport matches Option::Some(ov) ==> (final(self).viewport
                matches Option::Some(v) && final(self).store.bounds matches Option::Some(b)
                && v.center == b.spec_clamp(ov.center.x as int, ov.center.y as int)
                && v.zoom_milli == ov.zoom_milli)),
    {
        self.store.replace_points(new_points);
        let n: usize = self.store.points.len();
        let mut entries: Vec<IndexEntry> = Vec::new();
        let mut i: usize = 0;
        while i < n
            invariant
                0 <= i <= n,
                n == self.store.points@.len(),
                all_points_bounded(self.store.points@),
                entries@.len() == i,
                forall|k: int|
                    0 <= k < i ==> #[trigger] entries@[k] == (IndexEntry {
                        id: self.store.points@[k].id,
                        pos: self.store.points@[k].pos,
                    }),
            decreases n - i,
        {
            let p_id: u64 = self.store.points[i].id;
            let p_pos: PlanePoint = self.store.points[i].pos;
            entries.push(IndexEntry { id: p_id, pos: p_pos });
            i += 1;
        }
        proof {
            assert forall|e: IndexEntry| #[trigger]
                entries@.contains(e) implies bounded(e.pos) by {
                let j = choose|j: int| 0 <= j < entries@.len() && entries@[j] == e;
                assert(bounded(self.store.points@[j].pos));
            }
        }
        let idx = SpatialIndex::build(&entries);
        self.index = idx;
        proof {
            assert forall|e: IndexEntry| #[trigger]
                self.index.entries().contains(e) <==> point_entry(self.store.points@, e) by {
                if self.index.entries().contains(e) {
                    assert(entries@.contains(e));
                    let j = choose|j: int| 0 <= j < entries@.len() && entries@[j] == e;
                    assert(self.store.points@[j].id == e.id && self.store.points@[j].pos == e.pos);
                }
                if point_entry(self.store.points@, e) {
                    let k = choose|k: int|
                        0 <= k < self.store.points@.len() && self.store.points@[k].id == e.id
                            && self.store.points@[k].pos == e.pos;
                    assert(entries@[k] == e);
                    assert(entries@.contains(e));
                }
            }
        }
        let ob: Option<crate::geom::Bounds> = self.store.bounds;
        match ob {
            Option::None => {
                self.viewport = Option::None;
            },
            Option::Some(b) => {
                let vp: Option<ViewportState> = self.viewport;
                match vp {
                    Option::None => {
                        self.viewport = Option::Some(
                            ViewportState::centered(&b, self.half_diag),
                        );
                    },
                    Option::Some(ov) => {
                        self.viewport = Option::Some(ViewportState::rebound(&ov, &b));
                    },
                }
            },
        }
        self.cache.mark_dirty();
    }

    /// Replaces the edge set with those of the given edges that resolve to
    /// loaded points; an edge naming an unknown point is dropped, not an
    /// error.
    pub fn add_edges(&mut self, new_edges: Vec<Edge>)
        requires
            old(self).wf(),
        ensures
            final(self).wf(),
            final(self).store.points@ == old(self).store.points@,
            final(self).store.labels@ == old(self).store.labels@,
            final(self).viewport == old(self).viewport,
            final(self).index == old(self).index,
            final(self).tracker == old(self).tracker,
            final(self).markers@ == old(self).markers@,
            final(self).cache.dirty,
            forall|e: Edge|
                #![trigger final(self).store.edges@.contains(e)]
                #![trigger new_edges@.contains(e)]
                final(self).store.edges@.contains(e) <==> (new_edges@.contains(e)
                    && edge_resolves(old(self).store.points@, e)),
    {
        self.store.set_edges(new_edges);
        self.cache.mark_dirty();
    }

    /// Pans the viewport by a screen-space delta, clamping into the
    /// dataset bounds, and invalidates the cache only if the center really
    /// moved. Panning by zero, panning against a bound already reached, or
    /// panning before any dataset is loaded changes nothing at all.
    pub fn pan(&mut self, dx: i64, dy: i64) -> (moved: bool)
        requires
            old(self).wf(),
        ensures
            final(self).wf(),
            final(self).store == old(self).store,
            final(self).index == old(self).index,
            final(self).tracker == old(self).tracker,
            final(self).markers@ == old(self).markers@,
            old(self).viewport is None ==> !moved && *final(self) == *old(self),
            old(self).viewport matches Option::Some(ov) ==> (final(self).viewport
                matches Option::Some(v) && old(self).store.bounds matches Option::Some(b)
                && v.center == ViewportState::spec_pan_target(
                ov.center,
                b,
                dx as int,
                dy as int,
                ov.zoom_milli as int,
            ) && v.zoom_milli == ov.zoom_milli && v.radius == ov.radius && (moved <==> v.center
                != ov.center)),
            final(self).cache.dirty == (old(self).cache.dirty || moved),
            !moved ==> *final(self) == *old(self),
            dx == 0 && dy == 0 ==> !moved && *final(self) == *old(self),
    {
        let vp: Option<ViewportState> = self.viewport;
        match vp {
            Option::None => false,
            Option::Some(ov) => {
                match self.store.bounds {
                    Option::None => {
                        proof {
                            assert(false);
                        }
                        false
                    },
                    Option::Some(b) => {
                        let mut v = ov;
                        let moved = v.pan(&b, dx, dy);
                        self.viewport = Option::Some(v);
                        if moved {
                            self.cache.mark_dirty();
                        }
                        moved
                    },
                }
            },
        }
    }

    /// Sets the zoom factor, clamped into the accepted range, recomputes
    /// the visibility radius and invalidates the cache only if the factor
    /// changed. A no-op before any dataset is loaded.
    pub fn set_zoom(&mut self, zoom_milli: u32) -> (changed: bool)
        requires
            old(self).wf(),
        ensures
            final(self).wf(),
            final(self).store == old(self).store,
            final(self).index == old(self).index,
            final(self).tracker == old(self).tracker,
            final(self).markers@ == old(self).markers@,
            old(self).viewport is None ==> !changed && *final(self) == *old(self),
            old(self).viewport matches Option::Some(ov) ==> (final(self).viewport
                matches Option::Some(v) && v.center == ov.center && v.zoom_milli
                == crate::geom::clamp_int(
                zoom_milli as int,
                crate::viewport::MIN_ZOOM_MILLI as int,
                crate::viewport::MAX_ZOOM_MILLI as int,
            ) && (changed <==> v.zoom_milli != ov.zoom_milli)),
            final(self).cache.dirty == (old(self).cache.dirty || changed),
            !changed ==> *final(self) == *old(self),
    {
        let vp: Option<ViewportState> = self.viewport;
        match vp {
            Option::None => false,
            Option::Some(ov) => {
                match self.store.bounds {
                    Option::None => {
                        proof {
                            assert(false);
                        }
                        false
                    },
                    Option::Some(b) => {
                        let mut v = ov;
                        let changed = v.set_zoom(&b, zoom_milli);
                        self.viewport = Option::Some(v);
                        if changed {
                            self.cache.mark_dirty();
                        }
                        proof {
                            if !changed {
                                assert(v == ov);
                            }
                        }
                        changed
                    },
                }
            },
        }
    }

    /// Recenters on a requested world point, clamping into the bounds; a
    /// request outside the bounds is clamped, never rejected. Invalidates
    /// the cache only if the center moved. A no-op before any dataset is
    /// loaded.
    pub fn set_center(&mut self, p: PlanePoint) -> (moved: bool)
        requires
            old(self).wf(),
        ensures
            final(self).wf(),
            final(self).store == old(self).store,
            final(self).index == old(self).index,
            final(self).tracker == old(self).tracker,
            final(self).markers@ == old(self).markers@,
            old(self).viewport is None ==> !moved && *final(self) == *old(self),
            old(self).viewport matches Option::Some(ov) ==> (final(self).viewport
                matches Option::Some(v) && old(self).store.bounds matches Option::Some(b)
                && v.center == b.spec_clamp(p.x as int, p.y as int) && v.zoom_milli
                == ov.zoom_milli && v.radius == ov.radius && (moved <==> v.center != ov.center)),
            final(self).cache.dirty == (old(self).cache.dirty || moved),
            !moved ==> *final(self) == *old(self),
    {
        let vp: Option<ViewportState> = self.viewport;
        match vp {
            Option::None => false,
            Option::Some(ov) => {
                match self.store.bounds {
                    Option::None => {
                        proof {
                            assert(false);
                        }
                        false
                    },
                    Option::Some(b) => {
                        let mut v = ov;
                        let moved = v.set_center(&b, p);
                        self.viewport = Option::Some(v);
                        if moved {
                            self.cache.mark_dirty();
                        }
                        moved
                    },
                }
            },
        }
    }

    /// Recenters on the loaded point with the given id, used when a search
    /// result is clicked. Reports whether the point exists; an unknown id
    /// changes nothing.
    pub fn set_center_by_point_id(&mut self, id: u64) -> (found: bool)
        requires
            old(self).wf(),
        ensures
            final(self).wf(),
            found == has_point(old(self).store.points@, id),
            final(self).store == old(self).store,
            final(self).index == old(self).index,
            final(self).tracker == old(self).tracker,
            final(self).markers@ == old(self).markers@,
            !found ==> *final(self) == *old(self),
            found ==> (final(self).viewport matches Option::Some(v) && old(
                self,
            ).store.bounds matches Option::Some(b) && exists|k: int|
                0 <= k < old(self).store.points@.len() && (#[trigger] old(
                    self,
                ).store.points@[k]).id == id && v.center == b.spec_clamp(
                    old(self).store.points@[k].pos.x as int,
                    old(self).store.points@[k].pos.y as int,
                )),
    {
        let found_pos = self.store.position_of(id);
        match found_pos {
            Option::None => false,
            Option::Some(p) => {
                proof {
                    assert(has_point(self.store.points@, id));
                    assert(self.store.points@.len() > 0);
                    assert(!(self.store.bounds is None));
                }
                self.set_center(p);
                true
            },
        }
    }

    /// Records the rendering surface size, rederiving the visibility
    /// radius; the surface is remembered across dataset loads.
    pub fn set_surface(&mut self, width: u32, height: u32) -> (changed: bool)
        requires
            old(self).wf(),
            width <= crate::viewport::MAX_SURFACE_SIDE,
            height <= crate::viewport::MAX_SURFACE_SIDE,
        ensures
            final(self).wf(),
            final(self).store == old(self).store,
            final(self).index == old(self).index,
            final(self).tracker == old(self).tracker,
            final(self).markers@ == old(self).markers@,
            final(self).half_diag == crate::viewport::spec_isqrt(
                (width * width + height * height) as int,
            ) / 2,
            old(self).viewport matches Option::Some(ov) ==> (final(self).viewport
                matches Option::Some(v) && v.center == ov.center && v.zoom_milli
                == ov.zoom_milli && v.half_diag == final(self).half_diag),
            old(self).viewport is None ==> final(self).viewport is None,
            final(self).cache.dirty == (old(self).cache.dirty || changed),
    {
        let vp: Option<ViewportState> = self.viewport;
        match vp {
            Option::None => {
                // No dataset yet: remember the surface for the first load.
                proof {
                    crate::viewport::lemma_mul_bound(
                        width as int,
                        crate::viewport::MAX_SURFACE_SIDE as int,
                        width as int,
                        crate::viewport::MAX_SURFACE_SIDE as int,
                    );
                    crate::viewport::lemma_mul_bound(
                        height as int,
                        crate::viewport::MAX_SURFACE_SIDE as int,
                        height as int,
                        crate::viewport::MAX_SURFACE_SIDE as int,
                    );
                }
                let n: u64 = (width as u64) * (width as u64) + (height as u64) * (height
                    as u64);
                let d: u64 = crate::viewport::isqrt_u64(n);
                proof {
                    assert(d as int <= 1_500_000_000) by (nonlinear_arith)
                        requires
                            0 <= d as int,
                            (d as int) * (d as int) <= 2_000_000_000_000_000_000,
                    {
                        assert(1_500_000_001int * 1_500_000_001 > 2_000_000_000_000_000_000)
                            by (nonlinear_arith);
                    }
                }
                let hd: i64 = (d / 2) as i64;
                let changed = hd != self.half_diag;
                self.half_diag = hd;
                if changed {
                    self.cache.mark_dirty();
                }
                changed
            },
            Option::Some(ov) => {
                match self.store.bounds {
                    Option::None => {
                        proof {
                            assert(false);
                        }
                        false
                    },
                    Option::Some(b) => {
                        let mut v = ov;
                        let changed = v.set_surface(&b, width, height);
                        self.viewport = Option::Some(v);
                        self.half_diag = v.half_diag;
                        if changed {
                            self.cache.mark_dirty();
                        }
                        proof {
                            if !changed {
                                assert(v == ov);
                            }
                        }
                        changed
                    },
                }
            },
        }
    }

    /// The visible point ids for this frame. A clean cache is returned as
    /// is, without touching the spatial index; a dirty cache is recomputed
    /// with one radius query first. The result is exactly the set of
    /// loaded points within the visibility radius of the center — and the
    /// empty set before any dataset is loaded.
    pub fn visible_points(&mut self) -> (ids: Vec<u64>)
        requires
            old(self).wf(),
        ensures
            final(self).wf(),
            !final(self).cache.dirty,
            final(self).store == old(self).store,
            final(self).index == old(self).index,
            final(self).viewport == old(self).viewport,
            final(self).tracker == old(self).tracker,
            final(self).markers@ == old(self).markers@,
            ids@ == final(self).cache.ids@,
            forall|id: u64| #[trigger]
                ids@.contains(id) <==> (old(self).viewport matches Option::Some(v) && id_visible(
                    old(self).store.points@,
                    v.center,
                    v.radius as int,
                    id,
                )),
    {
        let vp: Option<ViewportState> = self.viewport;
        match vp {
            Option::None => {
                self.cache.ids = Vec::new();
                self.cache.dirty = false;
                let ids: Vec<u64> = Vec::new();
                proof {
                    assert(ids@ =~= self.cache.ids@);
                }
                ids
            },
            Option::Some(v) => {
                self.cache.recompute_if_dirty(&self.index, v.center, v.radius);
                let ids = clone_ids(&self.cache.ids);
                proof {
                    let pts = self.store.points@;
                    let entries = self.index.entries();
                    assert(visible_ok(self.cache.ids@, entries, v.center, v.radius as int));
                    assert forall|id: u64| #[trigger]
                        ids@.contains(id) implies id_visible(
                        pts,
                        v.center,
                        v.radius as int,
                        id,
                    ) by {
                        let k = choose|k: int| 0 <= k < ids@.len() && ids@[k] == id;
                        assert(exists|e: IndexEntry|
                            entries.contains(e) && e.id == ids@[k] && within_radius(
                                e.pos,
                                v.center,
                                v.radius as int,
                            ));
                        let e = choose|e: IndexEntry|
                            entries.contains(e) && e.id == ids@[k] && within_radius(
                                e.pos,
                                v.center,
                                v.radius as int,
                            );
                        assert(point_entry(pts, e));
                        let j = choose|j: int|
                            0 <= j < pts.len() && pts[j].id == e.id && pts[j].pos == e.pos;
                        assert(pts[j].id == id && within_radius(pts[j].pos, v.center, v.radius as int));
                    }
                    assert forall|id: u64|
                        id_visible(pts, v.center, v.radius as int, id) implies #[trigger] ids@.contains(
                        id,
                    ) by {
                        let j = choose|j: int|
                            0 <= j < pts.len() && pts[j].id == id && within_radius(
                                pts[j].pos,
                                v.center,
                                v.radius as int,
                            );
                        let e = IndexEntry { id: pts[j].id, pos: pts[j].pos };
                        assert(point_entry(pts, e));
                        assert(entries.contains(e));
                        assert(self.cache.ids@.contains(e.id));
                    }
                }
                ids
            },
        }
    }

    /// Runs one proximity query directly against the loaded points: every
    /// point within `radius` of `center` is reported (completeness) and
    /// nothing else (soundness). An unloaded engine reports nothing.
    pub fn query_within(&self, center: PlanePoint, radius: i64) -> (ids: Vec<u64>)
        requires
            self.wf(),
            bounded(center),
            0 <= radius <= MAX_RADIUS,
        ensures
            forall|k: int|
                0 <= k < self.store.points@.len() && within_radius(
                    (#[trigger] self.store.points@[k]).pos,
                    center,
                    radius as int,
                ) ==> ids@.contains(self.store.points@[k].id),
            forall|id: u64| #[trigger]
                ids@.contains(id) ==> id_visible(self.store.points@, center, radius as int, id),
    {
        let ids = self.index.query_within(center, radius);
        proof {
            let pts = self.store.points@;
            let entries = self.index.entries();
            assert forall|k: int|
                0 <= k < pts.len() && within_radius(
                    (#[trigger] pts[k]).pos,
                    center,
                    radius as int,
                ) implies ids@.contains(pts[k].id) by {
                let e = IndexEntry { id: pts[k].id, pos: pts[k].pos };
                assert(point_entry(pts, e));
                assert(entries.contains(e));
            }
            assert forall|id: u64| #[trigger]
                ids@.contains(id) implies id_visible(pts, center, radius as int, id) by {
                let k = choose|k: int| 0 <= k < ids@.len() && ids@[k] == id;
                assert(exists|e: IndexEntry|
                    entries.contains(e) && e.id == ids@[k] && within_radius(
                        e.pos,
                        center,
                        radius as int,
                    ));
                let e = choose|e: IndexEntry|
                    entries.contains(e) && e.id == ids@[k] && within_radius(
                        e.pos,
                        center,
                        radius as int,
                    );
                assert(point_entry(pts, e));
                let j = choose|j: int|
                    0 <= j < pts.len() && pts[j].id == e.id && pts[j].pos == e.pos;
                assert(pts[j].id == id);
            }
        }
        ids
    }

    /// Starts (or restarts) the pulse animation on a point.
    pub fn notify(&mut self, id: u64, start: u64)
        requires
            old(self).wf(),
        ensures
            final(self).wf(),
            final(self).store == old(self).store,
            final(self).index == old(self).index,
            final(self).viewport == old(self).viewport,
            final(self).cache == old(self).cache,
            final(self).markers@ == old(self).markers@,
            forall|e: PulseEntry|
                #![trigger final(self).tracker.entries@.contains(e)]
                #![trigger old(self).tracker.entries@.contains(e)]
                final(self).tracker.entries@.contains(e) <==> (old(
                    self,
                ).tracker.entries@.contains(e) && e.id != id || e == (PulseEntry { id, start })),
    {
        self.tracker.notify(id, start);
    }

    /// Advances the pulse animations to `now`, dropping finished pulses
    /// and reporting the alpha of each one still running.
    pub fn tick(&mut self, now: u64) -> (samples: Vec<PulseSample>)
        requires
            old(self).wf(),
        ensures
            final(self).wf(),
            final(self).store == old(self).store,
            final(self).index == old(self).index,
            final(self).viewport == old(self).viewport,
            final(self).cache == old(self).cache,
            final(self).markers@ == old(self).markers@,
            forall|e: PulseEntry|
                #![trigger final(self).tracker.entries@.contains(e)]
                #![trigger old(self).tracker.entries@.contains(e)]
                final(self).tracker.entries@.contains(e) <==> (old(
                    self,
                ).tracker.entries@.contains(e) && alpha_at(e.start as int, now as int) > 0),
            samples@.len() == final(self).tracker.entries@.len(),
            forall|k: int|
                0 <= k < samples@.len() ==> #[trigger] samples@[k] == (PulseSample {
                    id: final(self).tracker.entries@[k].id,
                    alpha: alpha_at(final(self).tracker.entries@[k].start as int, now as int) as u64,
                }),
    {
        self.tracker.tick(now)
    }

    /// Whether any pulse is still running, so the host knows to keep
    /// scheduling redraws.
    pub fn animating(&self) -> (r: bool)
        ensures
            r <==> self.tracker.entries@.len() > 0,
    {
        self.tracker.active()
    }

    /// Moves the marker of a tracked entity to a new anchor point,
    /// independent of the pulse mechanism; an entity has at most one
    /// marker, so a move replaces the previous one.
    pub fn update_marker(&mut self, entity: u64, point: u64)
        requires
            old(self).wf(),
        ensures
            final(self).wf(),
            final(self).store == old(self).store,
            final(self).index == old(self).index,
            final(self).viewport == old(self).viewport,
            final(self).cache == old(self).cache,
            final(self).tracker == old(self).tracker,
            forall|m: Marker|
                #![trigger final(self).markers@.contains(m)]
                #![trigger old(self).markers@.contains(m)]
                final(self).markers@.contains(m) <==> (old(self).markers@.contains(m) && m.entity
                    != entity || m == (Marker { entity, point })),
    {
        let n: usize = self.markers.len();
        let mut kept: Vec<Marker> = Vec::new();
        let mut i: usize = 0;
        while i < n
            invariant
                0 <= i <= n,
                n == self.markers@.len(),
                unique_marker_entities(self.markers@),
                self.markers@ == old(self).markers@,
                unique_marker_entities(kept@),
                forall|k: int|
                    0 <= k < kept@.len() ==> exists|j: int|
                        0 <= j < i && self.markers@[j] == #[trigger] kept@[k],
                forall|m: Marker| #[trigger] kept@.contains(m) ==> m.entity != entity,
                forall|m: Marker|
                    #![trigger kept@.contains(m)]
                    kept@.contains(m) <==> (self.markers@.subrange(0, i as int).contains(m)
                        && m.entity != entity),
            decreases n - i,
        {
            let m = self.markers[i];
            let ghost kept_pre = kept@;
            if m.entity != entity {
                kept.push(m);
                proof {
                    assert forall|a: int, b: int|
                        0 <= a < b < kept@.len() implies (#[trigger] kept@[a]).entity != (
                    #[trigger] kept@[b]).entity by {
                        if b == kept@.len() - 1 {
                            assert(kept@[a] == kept_pre[a]);
                            let j = choose|j: int|
                                0 <= j < i && self.markers@[j] == kept_pre[a];
                            assert(self.markers@[j].entity != self.markers@[i as int].entity);
                        }
                    }
                }
            }
            proof {
                broadcast use vstd::seq_lib::lemma_seq_contains_after_push;

                assert(self.markers@.subrange(0, (i + 1) as int) =~= self.markers@.subrange(
                    0,
                    i as int,
                ).push(self.markers@[i as int]));
            }
            i += 1;
        }
        proof {
            assert(self.markers@.subrange(0, n as int) =~= self.markers@);
        }
        let ghost kept_pre = kept@;
        kept.push(Marker { entity, point });
        self.markers = kept;
        proof {
            broadcast use vstd::seq_lib::lemma_seq_contains_after_push;

            assert forall|a: int, b: int|
                0 <= a < b < self.markers@.len() implies (#[trigger] self.markers@[a]).entity != (
            #[trigger] self.markers@[b]).entity by {
                if b == self.markers@.len() - 1 {
                    assert(self.markers@[a] == kept_pre[a]);
                    assert(kept_pre.contains(kept_pre[a]));
                    assert(kept_pre[a].entity != entity);
                }
            }
        }
    }

    /// Hit-tests a click: maps a screen position (in thousandths of a
    /// pixel, with the surface center at `origin`) back to the world point
    /// under it. Nothing is under a click before any dataset is loaded.
    pub fn screen_to_world(&self, s: ScreenPoint, origin: ScreenPoint) -> (w: Option<PlanePoint>)
        requires
            self.wf(),
            -SCREEN_LIMIT <= s.sx <= SCREEN_LIMIT,
            -SCREEN_LIMIT <= s.sy <= SCREEN_LIMIT,
            -ORIGIN_LIMIT <= origin.sx <= ORIGIN_LIMIT,
            -ORIGIN_LIMIT <= origin.sy <= ORIGIN_LIMIT,
        ensures
            w is Some <==> self.viewport is Some,
            self.viewport matches Option::Some(v) ==> w == Option::Some(
                spec_to_world(s, v.center, v.zoom_milli as int, origin),
            ),
    {
        let vp: Option<ViewportState> = self.viewport;
        match vp {
            Option::None => Option::None,
            Option::Some(v) => {
                match self.store.bounds {
                    Option::None => {
                        proof {
                            assert(false);
                        }
                        Option::None
                    },
                    Option::Some(b) => Option::Some(to_world(s, &v, &b, origin)),
                }
            },
        }
    }

    /// Applies one synchronization command, the decision step of the
    /// pane's event loop: recentering on a system, starting a pulse, or
    /// moving a player marker. Recentering on a region is not a pane-level
    /// action and changes nothing.
    pub fn apply_sync(&mut self, cmd: MapSync)
        requires
            old(self).wf(),
        ensures
            final(self).wf(),
            cmd matches MapSync::SystemNotification((id, t)) ==> (final(self).store == old(
                self,
            ).store && final(self).viewport == old(self).viewport && forall|e: PulseEntry|
                #![trigger final(self).tracker.entries@.contains(e)]
                #![trigger old(self).tracker.entries@.contains(e)]
                final(self).tracker.entries@.contains(e) <==> (old(
                    self,
                ).tracker.entries@.contains(e) && e.id != id as u64 || e == (PulseEntry {
                    id: id as u64,
                    start: t,
                }))),
            cmd matches MapSync::PlayerMoved((entity, point)) ==> (final(self).store == old(
                self,
            ).store && final(self).viewport == old(self).viewport && forall|m: Marker|
                #![trigger final(self).markers@.contains(m)]
                #![trigger old(self).markers@.contains(m)]
                final(self).markers@.contains(m) <==> (old(self).markers@.contains(m) && m.entity
                    != entity as u64 || m == (Marker {
                    entity: entity as u64,
                    point: point as u64,
                }))),
            cmd matches MapSync::CenterOn((id, target)) ==> (final(self).store == old(self).store
                && final(self).tracker == old(self).tracker && (target is Region ==> *final(self)
                == *old(self)) && (target is System && has_point(
                old(self).store.points@,
                id as u64,
            ) ==> (final(self).viewport matches Option::Some(v) && old(
                self,
            ).store.bounds matches Option::Some(b) && exists|k: int|
                0 <= k < old(self).store.points@.len() && (#[trigger] old(
                    self,
                ).store.points@[k]).id == id as u64 && v.center == b.spec_clamp(
                    old(self).store.points@[k].pos.x as int,
                    old(self).store.points@[k].pos.y as int,
                )))),
    {
        match cmd {
            MapSync::CenterOn((id, target)) => {
                match target {
                    Target::System => {
                        self.set_center_by_point_id(id as u64);
                    },
                    Target::Region => {},
                }
            },
            MapSync::SystemNotification((id, t)) => {
                self.notify(id as u64, t);
            },
            MapSync::PlayerMoved((entity, point)) => {
                self.update_marker(entity as u64, point as u64);
            },
        }
    }

    /// The full-bounds round trip: a query from the bounds midpoint whose
    /// squared radius covers the squared bounds diagonal reaches every
    /// loaded point, so by the completeness of `query_within` its result
    /// is the whole point set (and by soundness nothing else).
    pub proof fn lemma_full_bounds_covers(self, b: crate::geom::Bounds, r: int)
        requires
            self.wf(),
            self.store.bounds == Option::Some(b),
            0 <= r,
            b.diag_sq() <= r * r,
        ensures
            forall|k: int|
                0 <= k < self.store.points@.len() ==> within_radius(
                    (#[trigger] self.store.points@[k]).pos,
                    b.spec_midpoint(),
                    r,
                ),
    {
        assert forall|k: int|
            0 <= k < self.store.points@.len() implies within_radius(
            (#[trigger] self.store.points@[k]).pos,
            b.spec_midpoint(),
            r,
        ) by {
            assert(b.contains_pt(self.store.points@[k].pos));
            b.lemma_midpoint_covers(self.store.points@[k].pos, r);
        }
    }

    /// The full-bounds round trip, end to end: any id set that correctly
    /// answers a query from the bounds midpoint with a squared radius
    /// covering the squared bounds diagonal — as `query_within` and the
    /// visibility cache are proved to do — holds the id of every loaded
    /// point, and nothing but ids of loaded points.
    pub proof fn lemma_full_bounds_query(self, b: crate::geom::Bounds, r: int, ids: Seq<u64>)
        requires
            self.wf(),
            self.store.bounds == Option::Some(b),
            0 <= r,
            b.diag_sq() <= r * r,
            visible_ok(ids, self.index.entries(), b.spec_midpoint(), r),
        ensures
            forall|k: int|
                0 <= k < self.store.points@.len() ==> ids.contains(
                    (#[trigger] self.store.points@[k]).id,
                ),
            forall|id: u64| #[trigger] ids.contains(id) ==> has_point(self.store.points@, id),
    {
        let pts = self.store.points@;
        let entries = self.index.entries();
        self.lemma_full_bounds_covers(b, r);
        assert forall|k: int|
            0 <= k < pts.len() implies ids.contains((#[trigger] pts[k]).id) by {
            let e = IndexEntry { id: pts[k].id, pos: pts[k].pos };
            assert(point_entry(pts, e));
            assert(entries.contains(e));
            assert(within_radius(e.pos, b.spec_midpoint(), r));
        }
        assert forall|id: u64| #[trigger] ids.contains(id) implies has_point(pts, id) by {
            let k0 = choose|k0: int| 0 <= k0 < ids.len() && ids[k0] == id;
            assert(exists|e: IndexEntry|
                entries.contains(e) && e.id == ids[k0] && within_radius(
                    e.pos,
                    b.spec_midpoint(),
                    r,
                ));
            let e = choose|e: IndexEntry|
                entries.contains(e) && e.id == ids[k0] && within_radius(
                    e.pos,
                    b.spec_midpoint(),
                    r,
                );
            assert(point_entry(pts, e));
            let j = choose|j: int| 0 <= j < pts.len() && pts[j].id == e.id && pts[j].pos == e.pos;
            assert(pts[j].id == id);
        }
    }

    /// Replaces the overlay labels.
    pub fn add_labels(&mut self, new_labels: Vec<Label>)
        requires
            old(self).wf(),
        ensures
            final(self).wf(),
            final(self).store.points@ == old(self).store.points@,
            final(self).store.edges@ == old(self).store.edges@,
            final(self).store.labels@ == new_labels@,
            final(self).viewport == old(self).viewport,
            final(self).tracker == old(self).tracker,
            final(self).markers@ == old(self).markers@,
            final(self).cache.dirty,
    {
        self.store.set_labels(new_labels);
        self.cache.mark_dirty();
    }
}

} // verus!
