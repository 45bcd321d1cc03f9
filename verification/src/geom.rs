//! Plane geometry over integer world coordinates: points, squared
//! distances, bounding boxes and the clamping used by the viewport.

use vstd::prelude::*;

verus! {

/// Largest magnitude a corrected world coordinate may take. Raw dataset
/// coordinates are divided by a large scale factor at ingestion, so corrected
/// coordinates are far below this bound; keeping it explicit lets every
/// distance computation be proved free of overflow.
pub const MAX_COORD: i64 = 1_000_000_000_000;

/// Largest radius a proximity query may use. It comfortably exceeds the
/// diagonal of any bounding box of in-range points, so a query over the whole
/// dataset is always expressible.
pub const MAX_RADIUS: i64 = 10_000_000_000_000;

/// A position in the corrected world plane.
#[derive(Clone, Copy, PartialEq, Eq, Structural, Debug, Hash)]
pub struct PlanePoint {
    pub x: i64,
    pub y: i64,
}

/// The square of an integer.
pub open spec fn sq(a: int) -> int {
    a * a
}

/// Squared Euclidean distance between two plane points.
pub open spec fn dist_sq(a: PlanePoint, b: PlanePoint) -> int {
    sq(a.x - b.x) + sq(a.y - b.y)
}

/// Whether `p` lies within (inclusive) distance `r` of `c`.
pub open spec fn within_radius(p: PlanePoint, c: PlanePoint, r: int) -> bool {
    dist_sq(p, c) <= r * r
}

/// Whether a point lies inside the coordinate range the engine accepts.
pub open spec fn bounded(p: PlanePoint) -> bool {
    &&& -MAX_COORD <= p.x <= MAX_COORD
    &&& -MAX_COORD <= p.y <= MAX_COORD
}

/// Division that rounds toward zero, the convention of Rust's `/` operator
/// and hence of the dataset's coordinate correction.
pub open spec fn div_trunc(a: int, b: int) -> int
    recommends
        b > 0,
{
    if a >= 0 {
        a / b
    } else {
        -((-a) / b)
    }
}

/// `v` clamped into the closed interval `[lo, hi]`.
pub open spec fn clamp_int(v: int, lo: int, hi: int) -> int
    recommends
        lo <= hi,
{
    if v < lo {
        lo
    } else if v > hi {
        hi
    } else {
        v
    }
}

/// Truncating division on machine integers.
pub fn div_trunc_i64(a: i64, b: i64) -> (q: i64)
    requires
        1 <= b,
        i64::MIN < a,
    ensures
        q == div_trunc(a as int, b as int),
{
    if a >= 0 {
        let q0: u64 = (a as u64) / (b as u64);
        proof {
            vstd::arithmetic::div_mod::lemma_div_nonincreasing(a as int, b as int);
            vstd::arithmetic::div_mod::lemma_div_pos_is_pos(a as int, b as int);
        }
        q0 as i64
    } else {
        let m: u64 = (-a) as u64;
        let q0: u64 = m / (b as u64);
        proof {
            vstd::arithmetic::div_mod::lemma_div_nonincreasing(m as int, b as int);
            vstd::arithmetic::div_mod::lemma_div_pos_is_pos(m as int, b as int);
        }
        -(q0 as i64)
    }
}

/// Truncating division on wide intermediates, used where a product may
/// exceed the 64-bit range before the division brings it back.
pub fn div_trunc_i128(a: i128, b: i128) -> (q: i128)
    requires
        1 <= b,
        i128::MIN < a,
    ensures
        q == div_trunc(a as int, b as int),
{
    if a >= 0 {
        let q0: u128 = (a as u128) / (b as u128);
        proof {
            vstd::arithmetic::div_mod::lemma_div_nonincreasing(a as int, b as int);
            vstd::arithmetic::div_mod::lemma_div_pos_is_pos(a as int, b as int);
        }
        q0 as i128
    } else {
        let m: u128 = (-a) as u128;
        let q0: u128 = m / (b as u128);
        proof {
            vstd::arithmetic::div_mod::lemma_div_nonincreasing(m as int, b as int);
            vstd::arithmetic::div_mod::lemma_div_pos_is_pos(m as int, b as int);
        }
        -(q0 as i128)
    }
}

/// A square is bounded by the square of a bound on the magnitude.
pub proof fn lemma_sq_bound(a: int, m: int)
    by (nonlinear_arith)
    requires
        -m <= a <= m,
        0 <= m,
    ensures
        0 <= sq(a) <= m * m,
{
}

/// If the distance along one axis already exceeds the radius, the point is
/// outside the circle whatever the other axis contributes.
pub proof fn lemma_axis_excludes(dk: int, dother: int, r: int)
    by (nonlinear_arith)
    requires
        0 <= r,
        dk > r || dk < -r,
    ensures
        sq(dk) + sq(dother) > r * r,
{
}

/// Decides `within_radius` exactly, computing in 128-bit intermediates so
/// that no step can overflow.
pub fn dist_sq_le(a: PlanePoint, b: PlanePoint, r: i64) -> (res: bool)
    requires
        bounded(a),
        bounded(b),
        0 <= r <= MAX_RADIUS,
    ensures
        res == within_radius(a, b, r as int),
{
    let dx: i128 = a.x as i128 - b.x as i128;
    let dy: i128 = a.y as i128 - b.y as i128;
    proof {
        lemma_sq_bound(dx as int, 2 * MAX_COORD as int);
        lemma_sq_bound(dy as int, 2 * MAX_COORD as int);
        lemma_sq_bound(r as int, MAX_RADIUS as int);
    }
    dx * dx + dy * dy <= (r as i128) * (r as i128)
}

/// The axis-aligned box spanned by the minimum and maximum coordinate
/// observed across a loaded point set.
#[derive(Clone, Copy, PartialEq, Eq, Structural, Debug)]
pub struct Bounds {
    pub min: PlanePoint,
    pub max: PlanePoint,
}

impl Bounds {
    /// A well-formed box: in range on both axes and not inverted.
    pub open spec fn wf(self) -> bool {
        &&& bounded(self.min)
        &&& bounded(self.max)
        &&& self.min.x <= self.max.x
        &&& self.min.y <= self.max.y
    }

    /// Whether `p` lies inside the box (inclusive).
    pub open spec fn contains_pt(self, p: PlanePoint) -> bool {
        &&& self.min.x <= p.x <= self.max.x
        &&& self.min.y <= p.y <= self.max.y
    }

    /// `p` clamped into the box, axis by axis.
    pub open spec fn spec_clamp(self, x: int, y: int) -> PlanePoint {
        PlanePoint {
            x: clamp_int(x, self.min.x as int, self.max.x as int) as i64,
            y: clamp_int(y, self.min.y as int, self.max.y as int) as i64,
        }
    }

    /// The box midpoint (components rounded down), the default viewport
    /// center after a dataset load.
    pub open spec fn spec_midpoint(self) -> PlanePoint {
        PlanePoint {
            x: (self.min.x + (self.max.x - self.min.x) / 2) as i64,
            y: (self.min.y + (self.max.y - self.min.y) / 2) as i64,
        }
    }

    /// Squared length of the box diagonal.
    pub open spec fn diag_sq(self) -> int {
        sq(self.max.x - self.min.x) + sq(self.max.y - self.min.y)
    }

    /// Clamps a point into the box.
    pub fn clamp_point(&self, p: PlanePoint) -> (r: PlanePoint)
        requires
            self.wf(),
        ensures
            r == self.spec_clamp(p.x as int, p.y as int),
            self.contains_pt(r),
            bounded(r),
    {
        self.clamp_wide(p.x as i128, p.y as i128)
    }

    /// Clamps 128-bit intermediates into the box; the result always fits in
    /// 64 bits because the box does.
    pub fn clamp_wide(&self, x: i128, y: i128) -> (r: PlanePoint)
        requires
            self.wf(),
        ensures
            r == self.spec_clamp(x as int, y as int),
            self.contains_pt(r),
            bounded(r),
    {
        let cx: i128 = if x < self.min.x as i128 {
            self.min.x as i128
        } else if x > self.max.x as i128 {
            self.max.x as i128
        } else {
            x
        };
        let cy: i128 = if y < self.min.y as i128 {
            self.min.y as i128
        } else if y > self.max.y as i128 {
            self.max.y as i128
        } else {
            y
        };
        PlanePoint { x: cx as i64, y: cy as i64 }
    }

    /// The box midpoint, always inside the box.
    pub fn midpoint(&self) -> (r: PlanePoint)
        requires
            self.wf(),
        ensures
            r == self.spec_midpoint(),
            self.contains_pt(r),
            bounded(r),
    {
        let wx: i64 = self.max.x - self.min.x;
        let wy: i64 = self.max.y - self.min.y;
        let hx: i64 = ((wx as u64) / 2u64) as i64;
        let hy: i64 = ((wy as u64) / 2u64) as i64;
        PlanePoint { x: self.min.x + hx, y: self.min.y + hy }
    }

    /// Every point of a well-formed box is within any radius whose square
    /// covers the squared diagonal, measured from the midpoint. This is what
    /// makes a full-dataset query expressible with one radius.
    pub proof fn lemma_midpoint_covers(self, p: PlanePoint, r: int)
        requires
            self.wf(),
            self.contains_pt(p),
            0 <= r,
            self.diag_sq() <= r * r,
        ensures
            within_radius(p, self.spec_midpoint(), r),
    {
        let m = self.spec_midpoint();
        let wx = self.max.x - self.min.x;
        let wy = self.max.y - self.min.y;
        assert(self.min.x <= m.x <= self.max.x);
        assert(self.min.y <= m.y <= self.max.y);
        assert(-wx <= p.x - m.x <= wx);
        assert(-wy <= p.y - m.y <= wy);
        lemma_sq_bound(p.x - m.x, wx as int);
        lemma_sq_bound(p.y - m.y, wy as int);
    }
}

} // verus!
