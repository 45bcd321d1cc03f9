//! The spatial index: a two-dimensional partitioning tree over point
//! entries, built once per dataset load and queried with an inclusive
//! radius. Queries prune whole subtrees that cannot intersect the query
//! circle; the contract proves the pruning loses nothing (completeness) and
//! that every returned id really is in range (soundness).

use vstd::prelude::*;

use crate::geom::{bounded, dist_sq_le, within_radius, PlanePoint, MAX_RADIUS};

verus! {

/// One indexed point: its stable id and its corrected world position.
#[derive(Clone, Copy, PartialEq, Eq, Structural, Debug)]
pub struct IndexEntry {
    pub id: u64,
    pub pos: PlanePoint,
}

/// The coordinate of `p` on the splitting axis (`false` splits on x,
/// `true` on y).
pub open spec fn key_at(p: PlanePoint, axis: bool) -> int {
    if axis {
        p.y as int
    } else {
        p.x as int
    }
}

/// Every entry of `s` lies within the accepted coordinate range.
pub open spec fn all_bounded(s: Seq<IndexEntry>) -> bool {
    forall|e: IndexEntry| #[trigger] s.contains(e) ==> bounded(e.pos)
}

/// An inner node of the partitioning tree.
pub struct KdNode {
    pub entry: IndexEntry,
    pub axis: bool,
    pub left: Option<Box<KdNode>>,
    pub right: Option<Box<KdNode>>,
}

/// All entries held by the subtree rooted at `n`, in symmetric order.
pub open spec fn node_entries(n: KdNode) -> Seq<IndexEntry>
    decreases n,
{
    (match n.left {
        Option::None => Seq::<IndexEntry>::empty(),
        Option::Some(l) => node_entries(*l),
    }) + seq![n.entry] + (match n.right {
        Option::None => Seq::<IndexEntry>::empty(),
        Option::Some(r) => node_entries(*r),
    })
}

/// Entries of an optional subtree.
pub open spec fn opt_entries(o: Option<Box<KdNode>>) -> Seq<IndexEntry> {
    match o {
        Option::None => Seq::<IndexEntry>::empty(),
        Option::Some(n) => node_entries(*n),
    }
}

/// Well-formedness of a subtree: its own entry is in range, children are
/// well formed, and every entry of the left (right) child lies on or below
/// (on or above) the node's split coordinate. That ordering is exactly what
/// justifies pruning during a query.
pub open spec fn wf_node(n: KdNode) -> bool
    decreases n,
{
    &&& bounded(n.entry.pos)
    &&& (match n.left {
        Option::None => true,
        Option::Some(l) => wf_node(*l) && (forall|e: IndexEntry|
            #[trigger] node_entries(*l).contains(e) ==> key_at(e.pos, n.axis) <= key_at(
                n.entry.pos,
                n.axis,
            )),
    })
    &&& (match n.right {
        Option::None => true,
        Option::Some(r) => wf_node(*r) && (forall|e: IndexEntry|
            #[trigger] node_entries(*r).contains(e) ==> key_at(e.pos, n.axis) >= key_at(
                n.entry.pos,
                n.axis,
            )),
    })
}

/// Builds the subtree for a non-empty list of entries: the first entry
/// becomes the splitting node and the rest are partitioned around its
/// coordinate on the given axis; axes alternate level by level.
fn build_node(pts: Vec<IndexEntry>, axis: bool) -> (node: Box<KdNode>)
    requires
        pts.len() >= 1,
        all_bounded(pts@),
    ensures
        wf_node(*node),
        forall|e: IndexEntry|
            #![trigger node_entries(*node).contains(e)]
            #![trigger pts@.contains(e)]
            node_entries(*node).contains(e) <==> pts@.contains(e),
    decreases pts.len(),
{
    let pivot: IndexEntry = pts[0];
    let kp: i64 = if axis {
        pivot.pos.y
    } else {
        pivot.pos.x
    };
    let n: usize = pts.len();
    let mut left_v: Vec<IndexEntry> = Vec::new();
    let mut right_v: Vec<IndexEntry> = Vec::new();
    let mut i: usize = 1;
    while i < n
        invariant
            1 <= i <= n,
            n == pts@.len(),
            all_bounded(pts@),
            kp as int == key_at(pivot.pos, axis),
            pivot == pts@[0],
            left_v@.len() + right_v@.len() == i - 1,
            forall|e: IndexEntry| #[trigger]
                left_v@.contains(e) ==> key_at(e.pos, axis) <= kp as int,
            forall|e: IndexEntry| #[trigger]
                right_v@.contains(e) ==> key_at(e.pos, axis) > kp as int,
            forall|e: IndexEntry|
                #![trigger left_v@.contains(e)]
                #![trigger right_v@.contains(e)]
                (left_v@.contains(e) || right_v@.contains(e)) <==> pts@.subrange(
                    1,
                    i as int,
                ).contains(e),
        decreases n - i,
    {
        let e = pts[i];
        let ke: i64 = if axis {
            e.pos.y
        } else {
            e.pos.x
        };
        if ke <= kp {
            left_v.push(e);
        } else {
            right_v.push(e);
        }
        proof {
            broadcast use vstd::seq_lib::lemma_seq_contains_after_push;

            assert(pts@.subrange(1, (i + 1) as int) =~= pts@.subrange(1, i as int).push(
                pts@[i as int],
            ));
        }
        i += 1;
    }
    proof {
        broadcast use vstd::seq_lib::lemma_seq_contains_after_push;
        broadcast use vstd::seq_lib::lemma_seq_concat_contains_all_elements;

        assert(pts@ =~= seq![pts@[0]] + pts@.subrange(1, n as int));
        assert(forall|e: IndexEntry| #[trigger]
            pts@.subrange(1, n as int).contains(e) ==> pts@.contains(e));
        assert(seq![pts@[0]].contains(pivot)) by {
            assert(seq![pts@[0]][0] == pivot);
        }
        assert(forall|e: IndexEntry| #[trigger]
            left_v@.contains(e) ==> pts@.contains(e) && bounded(e.pos));
        assert(forall|e: IndexEntry| #[trigger]
            right_v@.contains(e) ==> pts@.contains(e) && bounded(e.pos));
    }
    let ghost lseq = left_v@;
    let ghost rseq = right_v@;
    let left: Option<Box<KdNode>> = if left_v.len() == 0 {
        Option::None
    } else {
        Option::Some(build_node(left_v, !axis))
    };
    let right: Option<Box<KdNode>> = if right_v.len() == 0 {
        Option::None
    } else {
        Option::Some(build_node(right_v, !axis))
    };
    let node = Box::new(KdNode { entry: pivot, axis, left, right });
    proof {
        broadcast use vstd::seq_lib::lemma_seq_concat_contains_all_elements;
        broadcast use vstd::seq_lib::lemma_seq_contains_after_push;

        let le = opt_entries(node.left);
        let re = opt_entries(node.right);
        assert(node_entries(*node) == le + seq![pivot] + re);
        assert(forall|e: IndexEntry| #[trigger] le.contains(e) <==> lseq.contains(e));
        assert(forall|e: IndexEntry| #[trigger] re.contains(e) <==> rseq.contains(e));
        assert(forall|e: IndexEntry| #[trigger]
            seq![pivot].contains(e) <==> e == pivot) by {
            assert(seq![pivot][0] == pivot);
        }
        assert(pts@ =~= seq![pts@[0]] + pts@.subrange(1, n as int));
        assert(forall|e: IndexEntry| #[trigger]
            node_entries(*node).contains(e) <==> (le + seq![pivot]).contains(e) || re.contains(
                e,
            ));
        assert(pts@.contains(pivot)) by {
            assert(pts@[0] == pivot);
        }
        assert(bounded(pivot.pos));
    }
    node
}

/// Everything appended to `pre` to give `post` is the id of some entry of
/// `entries` lying within the query circle: a query reports no stray ids.
pub open spec fn sound_append(
    entries: Seq<IndexEntry>,
    pre: Seq<u64>,
    post: Seq<u64>,
    c: PlanePoint,
    r: int,
) -> bool {
    forall|k: int|
        pre.len() <= k < post.len() ==> exists|e: IndexEntry|
            entries.contains(e) && e.id == #[trigger] post[k] && within_radius(e.pos, c, r)
}

/// An id contained in a prefix is contained in the whole sequence.
proof fn lemma_prefix_contains(a: Seq<u64>, b: Seq<u64>, id: u64)
    requires
        a.len() <= b.len(),
        b.subrange(0, a.len() as int) == a,
        a.contains(id),
    ensures
        b.contains(id),
{
    let i = choose|i: int| 0 <= i < a.len() && a[i] == id;
    assert(b.subrange(0, a.len() as int)[i] == a[i]);
    assert(b[i] == id);
}

/// Appends to `out` the id of every entry of the subtree that lies within
/// the query circle, descending only into subtrees the circle can reach.
fn query_node(n: &KdNode, c: PlanePoint, r: i64, out: &mut Vec<u64>)
    requires
        wf_node(*n),
        bounded(c),
        0 <= r <= MAX_RADIUS,
    ensures
        final(out)@.len() >= old(out)@.len(),
        final(out)@.subrange(0, old(out)@.len() as int) == old(out)@,
        sound_append(node_entries(*n), old(out)@, final(out)@, c, r as int),
        forall|e: IndexEntry| #[trigger]
            node_entries(*n).contains(e) && within_radius(e.pos, c, r as int) ==> final(out)@.contains(e.id),
    decreases *n,
{
    let ghost len0 = out@.len() as int;
    let ghost le = opt_entries(n.left);
    let ghost re = opt_entries(n.right);
    proof {
        broadcast use vstd::seq_lib::lemma_seq_concat_contains_all_elements;

        assert(node_entries(*n) == le + seq![n.entry] + re);
        assert(seq![n.entry].contains(n.entry)) by {
            assert(seq![n.entry][0] == n.entry);
        }
    }
    if dist_sq_le(n.entry.pos, c, r) {
        out.push(n.entry.id);
    }
    let ghost len1 = out@.len() as int;
    let ghost out1 = out@;
    let ck: i64 = if n.axis {
        c.y
    } else {
        c.x
    };
    let kp: i64 = if n.axis {
        n.entry.pos.y
    } else {
        n.entry.pos.x
    };
    // The left subtree only holds entries with key <= kp; if the circle lies
    // entirely above that coordinate, none of them can be in range.
    let reach_left: bool = (ck as i128) - (r as i128) <= kp as i128;
    if reach_left {
        match &n.left {
            Option::None => {},
            Option::Some(l) => {
                query_node(l, c, r, out);
            },
        }
    } else {
        proof {
            assert forall|e: IndexEntry| #[trigger]
                le.contains(e) implies !within_radius(e.pos, c, r as int) by {
                assert(key_at(e.pos, n.axis) <= kp as int);
                let dk = key_at(e.pos, n.axis) - (ck as int);
                let dother = if n.axis {
                    e.pos.x - c.x
                } else {
                    e.pos.y - c.y
                };
                crate::geom::lemma_axis_excludes(dk, dother, r as int);
            }
        }
    }
    let ghost len2 = out@.len() as int;
    let ghost out2 = out@;
    let reach_right: bool = (ck as i128) + (r as i128) >= kp as i128;
    if reach_right {
        match &n.right {
            Option::None => {},
            Option::Some(rc) => {
                query_node(rc, c, r, out);
            },
        }
    } else {
        proof {
            assert forall|e: IndexEntry| #[trigger]
                re.contains(e) implies !within_radius(e.pos, c, r as int) by {
                assert(key_at(e.pos, n.axis) >= kp as int);
                let dk = key_at(e.pos, n.axis) - (ck as int);
                let dother = if n.axis {
                    e.pos.x - c.x
                } else {
                    e.pos.y - c.y
                };
                crate::geom::lemma_axis_excludes(dk, dother, r as int);
            }
        }
    }
    proof {
        broadcast use vstd::seq_lib::lemma_seq_concat_contains_all_elements;

        let out0 = old(out)@;
        let outf = out@;
        let len3 = outf.len() as int;
        // Each step only appended, so every earlier prefix is intact.
        assert(out1.subrange(0, len0) =~= out0);
        assert(out2.subrange(0, len1) == out1);
        assert(outf.subrange(0, len2) == out2);
        assert forall|i: int| 0 <= i < len2 implies outf[i] == out2[i] by {
            assert(outf.subrange(0, len2)[i] == outf[i]);
        }
        assert forall|i: int| 0 <= i < len1 implies out2[i] == out1[i] by {
            assert(out2.subrange(0, len1)[i] == out2[i]);
        }
        assert(outf.subrange(0, len0) =~= out0);
        // Membership splits over the three parts of the symmetric order.
        assert(forall|e: IndexEntry| #[trigger]
            node_entries(*n).contains(e) <==> le.contains(e) || seq![n.entry].contains(e)
                || re.contains(e));
        assert forall|x: IndexEntry| #[trigger]
            seq![n.entry].contains(x) implies x == n.entry by {
            let i = choose|i: int| 0 <= i < seq![n.entry].len() && seq![n.entry][i] == x;
            assert(i == 0);
        }
        assert(node_entries(*n).contains(n.entry));
        // Soundness of everything appended during this call.
        assert(sound_append(node_entries(*n), out0, outf, c, r as int)) by {
            assert forall|k: int|
                len0 <= k < len3 implies exists|e: IndexEntry|
                    node_entries(*n).contains(e) && e.id == #[trigger] outf[k] && within_radius(
                        e.pos,
                        c,
                        r as int,
                    ) by {
                if k < len1 {
                    assert(outf[k] == out1[k]);
                    assert(out1[k] == n.entry.id);
                    assert(within_radius(n.entry.pos, c, r as int));
                    assert(node_entries(*n).contains(n.entry) && n.entry.id == outf[k]);
                } else if k < len2 {
                    assert(outf[k] == out2[k]);
                    let e = choose|e: IndexEntry|
                        le.contains(e) && e.id == out2[k] && within_radius(e.pos, c, r as int);
                    assert(node_entries(*n).contains(e) && e.id == outf[k]);
                } else {
                    let e = choose|e: IndexEntry|
                        re.contains(e) && e.id == outf[k] && within_radius(e.pos, c, r as int);
                    assert(node_entries(*n).contains(e) && e.id == outf[k]);
                }
            }
        }
        // Completeness: every in-range entry of the subtree was reported.
        assert forall|e: IndexEntry| #[trigger]
            node_entries(*n).contains(e) && within_radius(e.pos, c, r as int) implies outf.contains(
            e.id,
        ) by {
            if le.contains(e) {
                assert(out2.contains(e.id));
                lemma_prefix_contains(out2, outf, e.id);
            } else if re.contains(e) {
                assert(outf.contains(e.id));
            } else {
                assert(e == n.entry);
                assert(out1[len0] == n.entry.id);
                assert(out1.contains(e.id));
                lemma_prefix_contains(out1, out2, e.id);
                lemma_prefix_contains(out2, outf, e.id);
            }
        }
    }
}

/// The proximity index over one loaded point set. An empty dataset has no
/// index at all, so callers can skip querying; this is the explicit empty
/// variant rather than an error.
pub enum SpatialIndex {
    Empty,
    Built(Box<KdNode>),
}

impl SpatialIndex {
    /// All entries the index holds.
    pub open spec fn entries(self) -> Seq<IndexEntry> {
        match self {
            SpatialIndex::Empty => Seq::<IndexEntry>::empty(),
            SpatialIndex::Built(n) => node_entries(*n),
        }
    }

    /// Structural invariant of the tree.
    pub open spec fn wf(self) -> bool {
        match self {
            SpatialIndex::Empty => true,
            SpatialIndex::Built(n) => wf_node(*n),
        }
    }

    /// Builds the index for one dataset. Returns the `Empty` variant exactly
    /// when no points were given; otherwise the tree holds exactly the given
    /// entries.
    pub fn build(points: &Vec<IndexEntry>) -> (idx: SpatialIndex)
        requires
            all_bounded(points@),
        ensures
            idx.wf(),
            idx is Empty <==> points@.len() == 0,
            forall|e: IndexEntry|
                #![trigger idx.entries().contains(e)]
                #![trigger points@.contains(e)]
                idx.entries().contains(e) <==> points@.contains(e),
    {
        if points.len() == 0 {
            SpatialIndex::Empty
        } else {
            let mut owned: Vec<IndexEntry> = Vec::new();
            let m: usize = points.len();
            let mut i: usize = 0;
            while i < m
                invariant
                    0 <= i <= m,
                    m == points@.len(),
                    owned@ == points@.subrange(0, i as int),
                decreases m - i,
            {
                owned.push(points[i]);
                proof {
                    assert(points@.subrange(0, (i + 1) as int) =~= points@.subrange(
                        0,
                        i as int,
                    ).push(points@[i as int]));
                }
                i += 1;
            }
            proof {
                assert(owned@ =~= points@);
            }
            SpatialIndex::Built(build_node(owned, false))
        }
    }

    /// Returns the id of every indexed point whose Euclidean distance to
    /// `center` is at most `radius` — no point in range is missed, and no id
    /// out of range is reported.
    pub fn query_within(&self, center: PlanePoint, radius: i64) -> (ids: Vec<u64>)
        requires
            self.wf(),
            bounded(center),
            0 <= radius <= MAX_RADIUS,
        ensures
            forall|e: IndexEntry| #[trigger]
                self.entries().contains(e) && within_radius(e.pos, center, radius as int)
                    ==> ids@.contains(e.id),
            sound_append(self.entries(), Seq::<u64>::empty(), ids@, center, radius as int),
    {
        let mut out: Vec<u64> = Vec::new();
        match self {
            SpatialIndex::Empty => {},
            SpatialIndex::Built(n) => {
                query_node(n, center, radius, &mut out);
                proof {
                    assert(sound_append(
                        self.entries(),
                        Seq::<u64>::empty(),
                        out@,
                        center,
                        radius as int,
                    )) by {
                        assert forall|k: int|
                            0 <= k < out@.len() implies exists|e: IndexEntry|
                                self.entries().contains(e) && e.id == #[trigger] out@[k]
                                    && within_radius(e.pos, center, radius as int) by {
                            let idval = out@[k];
                            assert(exists|e: IndexEntry|
                                node_entries(**n).contains(e) && e.id == idval && within_radius(
                                    e.pos,
                                    center,
                                    radius as int,
                                ));
                            let e = choose|e: IndexEntry|
                                node_entries(**n).contains(e) && e.id == out@[k] && within_radius(
                                    e.pos,
                                    center,
                                    radius as int,
                                );
                            assert(self.entries().contains(e));
                        }
                    }
                }
            },
        }
        out
    }
}

} // verus!
