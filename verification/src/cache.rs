//! The visibility cache: the set of point ids inside the current viewport,
//! recomputed only when the viewport or the dataset changed. A render loop
//! that fires many times per second must not re-run the spatial query every
//! frame while nothing is interacted with; the dirty flag is what makes
//! that lazy discipline sound.

use vstd::prelude::*;

use crate::geom::{bounded, within_radius, PlanePoint, MAX_RADIUS};
use crate::index::{sound_append, IndexEntry, SpatialIndex};

verus! {

/// The cached ids describe exactly the entries of `entries` within
/// `radius` of `center`: none is missing and none is stray.
pub open spec fn visible_ok(
    ids: Seq<u64>,
    entries: Seq<IndexEntry>,
    center: PlanePoint,
    radius: int,
) -> bool {
    &&& forall|e: IndexEntry| #[trigger]
        entries.contains(e) && within_radius(e.pos, center, radius) ==> ids.contains(e.id)
    &&& sound_append(entries, Seq::<u64>::empty(), ids, center, radius)
}

/// The last computed visible set plus its dirty flag.
pub struct VisibilityCache {
    pub ids: Vec<u64>,
    pub dirty: bool,
}

impl VisibilityCache {
    /// A clean, empty cache: correct for an unloaded dataset.
    pub fn new() -> (c: VisibilityCache)
        ensures
            c.ids@.len() == 0,
            !c.dirty,
    {
        VisibilityCache { ids: Vec::new(), dirty: false }
    }

    /// Invalidates the cache; the next lookup will re-query.
    pub fn mark_dirty(&mut self)
        ensures
            final(self).dirty,
            final(self).ids@ == old(self).ids@,
    {
        self.dirty = true;
    }

    /// Returns the visible set, re-running the spatial query only if the
    /// cache is dirty: a clean cache is returned unchanged without any
    /// query work.
    pub fn recompute_if_dirty(
        &mut self,
        index: &SpatialIndex,
        center: PlanePoint,
        radius: i64,
    )
        requires
            index.wf(),
            bounded(center),
            0 <= radius <= MAX_RADIUS,
        ensures
            !final(self).dirty,
            !old(self).dirty ==> final(self).ids@ == old(self).ids@,
            old(self).dirty ==> visible_ok(
                final(self).ids@,
                index.entries(),
                center,
                radius as int,
            ),
    {
        if self.dirty {
            self.ids = index.query_within(center, radius);
            self.dirty = false;
        }
    }
}

} // verus!
