//! The viewport: pan position, zoom factor and the derived visibility
//! radius, together with the pure world/screen projection. Panning and
//! centering clamp into the dataset bounds rather than failing; zooming
//! clamps into the allowed zoom range.
//!
//! The zoom factor is held in thousandths (`zoom_milli`, 1000 = 1.0) and a
//! screen coordinate in thousandths of a pixel, so the projection and its
//! inverse are exact integer statements.

use vstd::prelude::*;

use crate::geom::{
    bounded, clamp_int, div_trunc, div_trunc_i128, div_trunc_i64, Bounds, PlanePoint, MAX_COORD,
    MAX_RADIUS,
};

verus! {

/// One whole unit of zoom, in thousandths.
pub const ZOOM_UNIT: u32 = 1000;

/// Smallest accepted zoom factor (0.1), in thousandths.
pub const MIN_ZOOM_MILLI: u32 = 100;

/// Largest accepted zoom factor (2.0), in thousandths.
pub const MAX_ZOOM_MILLI: u32 = 2000;

/// Largest accepted half-diagonal of the rendering surface, in pixels.
pub const MAX_HALF_DIAG: i64 = 1_000_000_000;

/// Largest accepted rendering-surface side, in pixels.
pub const MAX_SURFACE_SIDE: u32 = 1_000_000_000;

/// Magnitude bound for a surface origin handed to the projection, in
/// thousandths of a pixel.
pub const ORIGIN_LIMIT: i64 = 1_000_000_000_000_000;

/// Magnitude bound for a screen coordinate handed to the inverse
/// projection, in thousandths of a pixel.
pub const SCREEN_LIMIT: i64 = 10_000_000_000_000_000;

/// A screen position in thousandths of a pixel.
#[derive(Clone, Copy, PartialEq, Eq, Structural, Debug)]
pub struct ScreenPoint {
    pub sx: i64,
    pub sy: i64,
}

/// `r` is the integer square root of `n`.
pub open spec fn is_isqrt(n: int, r: int) -> bool {
    &&& 0 <= r
    &&& r * r <= n
    &&& n < (r + 1) * (r + 1)
}

/// The integer square root of `n`.
pub open spec fn spec_isqrt(n: int) -> int {
    choose|r: int| is_isqrt(n, r)
}

/// The integer square root is unique.
pub proof fn lemma_isqrt_unique(n: int, a: int, b: int)
    by (nonlinear_arith)
    requires
        is_isqrt(n, a),
        is_isqrt(n, b),
    ensures
        a == b,
{
}

/// Computes the integer square root by bisection.
pub fn isqrt_u64(n: u64) -> (r: u64)
    ensures
        is_isqrt(n as int, r as int),
        r as int == spec_isqrt(n as int),
{
    let mut lo: u64 = 0;
    let mut hi: u64 = 4_294_967_296;
    proof {
        assert((4_294_967_296int + 1) * (4_294_967_296int + 1) > u64::MAX as int) by (nonlinear_arith);
    }
    while lo < hi
        invariant
            lo <= hi <= 4_294_967_296,
            (lo * lo) as int <= n as int,
            (n as int) < ((hi + 1) * (hi + 1)) as int,
        decreases hi - lo,
    {
        let mid: u64 = lo + (hi - lo + 1) / 2;
        proof {
            lemma_mul_bound(mid as int, 4_294_967_296int, mid as int, 4_294_967_296int);
        }
        let sqr: u128 = (mid as u128) * (mid as u128);
        if sqr <= n as u128 {
            lo = mid;
        } else {
            hi = mid - 1;
        }
    }
    proof {
        assert(is_isqrt(n as int, lo as int));
        let w = choose|r: int| is_isqrt(n as int, r);
        lemma_isqrt_unique(n as int, lo as int, w);
    }
    lo
}

/// The visibility radius in world units: half the surface diagonal divided
/// by the zoom factor.
pub open spec fn spec_vis_radius(half_diag: int, zoom_milli: int) -> int
    recommends
        0 <= half_diag,
        0 < zoom_milli,
{
    (half_diag * ZOOM_UNIT) / zoom_milli
}

/// A product of magnitude-bounded factors is magnitude bounded.
pub proof fn lemma_mul_bound(a: int, ma: int, b: int, mb: int)
    by (nonlinear_arith)
    requires
        -ma <= a <= ma,
        0 <= b <= mb,
        0 <= ma,
    ensures
        -(ma * mb) <= a * b <= ma * mb,
{
}

/// Computes the visibility radius exactly.
fn vis_radius(half_diag: i64, zoom_milli: u32) -> (r: i64)
    requires
        0 <= half_diag <= MAX_HALF_DIAG,
        MIN_ZOOM_MILLI <= zoom_milli <= MAX_ZOOM_MILLI,
    ensures
        r == spec_vis_radius(half_diag as int, zoom_milli as int),
        0 <= r <= MAX_RADIUS,
{
    let num: u64 = (half_diag as u64) * (ZOOM_UNIT as u64);
    let q: u64 = num / (zoom_milli as u64);
    proof {
        vstd::arithmetic::div_mod::lemma_div_nonincreasing(num as int, zoom_milli as int);
        vstd::arithmetic::div_mod::lemma_div_pos_is_pos(num as int, zoom_milli as int);
        vstd::arithmetic::div_mod::lemma_div_is_ordered_by_denominator(
            num as int,
            MIN_ZOOM_MILLI as int,
            zoom_milli as int,
        );
    }
    q as i64
}

/// The pan position, zoom factor and derived visibility radius of one map
/// pane. Mutated only through clamping operations, so the center never
/// leaves the dataset bounds and the zoom never leaves its range.
#[derive(Clone, Copy, PartialEq, Eq, Structural, Debug)]
pub struct ViewportState {
    /// Current center, in world coordinates; always within the bounds.
    pub center: PlanePoint,
    /// Zoom factor in thousandths; always within the accepted range.
    pub zoom_milli: u32,
    /// Half the surface diagonal, in pixels.
    pub half_diag: i64,
    /// Derived visibility radius in world units.
    pub radius: i64,
}

impl ViewportState {
    /// Well-formedness against the bounds of the loaded dataset.
    pub open spec fn wf(self, b: Bounds) -> bool {
        &&& b.wf()
        &&& b.contains_pt(self.center)
        &&& MIN_ZOOM_MILLI <= self.zoom_milli <= MAX_ZOOM_MILLI
        &&& 0 <= self.half_diag <= MAX_HALF_DIAG
        &&& self.radius == spec_vis_radius(self.half_diag as int, self.zoom_milli as int)
        &&& 0 <= self.radius <= MAX_RADIUS
    }

    /// The world-space displacement of a pan gesture: screen delta divided
    /// by zoom, so panning feels the same at every zoom level.
    pub open spec fn spec_pan_delta(d: int, zoom_milli: int) -> int {
        div_trunc(d * ZOOM_UNIT, zoom_milli)
    }

    /// Where a pan gesture moves the center: the translated point clamped
    /// into the bounds.
    pub open spec fn spec_pan_target(c: PlanePoint, b: Bounds, dx: int, dy: int, zm: int) -> PlanePoint {
        b.spec_clamp(
            c.x + Self::spec_pan_delta(dx, zm),
            c.y + Self::spec_pan_delta(dy, zm),
        )
    }

    /// The state after the first dataset load: centered on the bounds
    /// midpoint at zoom 1.0.
    pub fn centered(b: &Bounds, half_diag: i64) -> (v: ViewportState)
        requires
            b.wf(),
            0 <= half_diag <= MAX_HALF_DIAG,
        ensures
            v.wf(*b),
            v.center == b.spec_midpoint(),
            v.zoom_milli == ZOOM_UNIT,
            v.half_diag == half_diag,
    {
        let center = b.midpoint();
        let radius = vis_radius(half_diag, ZOOM_UNIT);
        ViewportState { center, zoom_milli: ZOOM_UNIT, half_diag, radius }
    }

    /// Carries a viewport across a dataset reload: the pan position is
    /// clamped into the new bounds, zoom and surface are kept.
    pub fn rebound(prev: &ViewportState, b: &Bounds) -> (v: ViewportState)
        requires
            b.wf(),
            MIN_ZOOM_MILLI <= prev.zoom_milli <= MAX_ZOOM_MILLI,
            0 <= prev.half_diag <= MAX_HALF_DIAG,
            prev.radius == spec_vis_radius(prev.half_diag as int, prev.zoom_milli as int),
            0 <= prev.radius <= MAX_RADIUS,
        ensures
            v.wf(*b),
            v.center == b.spec_clamp(prev.center.x as int, prev.center.y as int),
            v.zoom_milli == prev.zoom_milli,
            v.half_diag == prev.half_diag,
            v.radius == prev.radius,
    {
        ViewportState {
            center: b.clamp_point(prev.center),
            zoom_milli: prev.zoom_milli,
            half_diag: prev.half_diag,
            radius: prev.radius,
        }
    }

    /// Pans by a screen-space delta, translating the center by `delta /
    /// zoom` and clamping into the bounds. Reports whether the center
    /// actually moved; a zero delta, or a pan against a bound already
    /// reached, changes nothing.
    pub fn pan(&mut self, b: &Bounds, dx: i64, dy: i64) -> (moved: bool)
        requires
            old(self).wf(*b),
        ensures
            final(self).wf(*b),
            final(self).center == Self::spec_pan_target(
                old(self).center,
                *b,
                dx as int,
                dy as int,
                old(self).zoom_milli as int,
            ),
            final(self).zoom_milli == old(self).zoom_milli,
            final(self).half_diag == old(self).half_diag,
            final(self).radius == old(self).radius,
            moved <==> final(self).center != old(self).center,
            dx == 0 && dy == 0 ==> *final(self) == *old(self),
    {
        let zm: i128 = self.zoom_milli as i128;
        let wdx: i128 = div_trunc_i128((dx as i128) * (ZOOM_UNIT as i128), zm);
        let wdy: i128 = div_trunc_i128((dy as i128) * (ZOOM_UNIT as i128), zm);
        let target = b.clamp_wide(self.center.x as i128 + wdx, self.center.y as i128 + wdy);
        let moved = target != self.center;
        self.center = target;
        proof {
            if dx == 0 && dy == 0 {
                assert(div_trunc(0int, old(self).zoom_milli as int) == 0) by {
                    vstd::arithmetic::div_mod::lemma_div_of0(old(self).zoom_milli as int);
                }
            }
        }
        moved
    }

    /// Sets the zoom factor, clamping into the accepted range, and derives
    /// the new visibility radius. Reports whether the factor changed.
    pub fn set_zoom(&mut self, b: &Bounds, zoom_milli: u32) -> (changed: bool)
        requires
            old(self).wf(*b),
        ensures
            final(self).wf(*b),
            final(self).zoom_milli == clamp_int(
                zoom_milli as int,
                MIN_ZOOM_MILLI as int,
                MAX_ZOOM_MILLI as int,
            ),
            final(self).center == old(self).center,
            final(self).half_diag == old(self).half_diag,
            final(self).radius == spec_vis_radius(
                old(self).half_diag as int,
                final(self).zoom_milli as int,
            ),
            changed <==> final(self).zoom_milli != old(self).zoom_milli,
    {
        let z: u32 = if zoom_milli < MIN_ZOOM_MILLI {
            MIN_ZOOM_MILLI
        } else if zoom_milli > MAX_ZOOM_MILLI {
            MAX_ZOOM_MILLI
        } else {
            zoom_milli
        };
        let changed = z != self.zoom_milli;
        self.zoom_milli = z;
        self.radius = vis_radius(self.half_diag, z);
        changed
    }

    /// Recenters on a requested world point, clamping into the bounds; a
    /// request outside the bounds is not an error, clamping is the defined
    /// behavior. Reports whether the center moved.
    pub fn set_center(&mut self, b: &Bounds, p: PlanePoint) -> (moved: bool)
        requires
            old(self).wf(*b),
        ensures
            final(self).wf(*b),
            final(self).center == b.spec_clamp(p.x as int, p.y as int),
            final(self).zoom_milli == old(self).zoom_milli,
            final(self).half_diag == old(self).half_diag,
            final(self).radius == old(self).radius,
            moved <==> final(self).center != old(self).center,
    {
        let target = b.clamp_point(p);
        let moved = target != self.center;
        self.center = target;
        moved
    }

    /// Records a new rendering-surface size and derives the half diagonal
    /// and visibility radius from it.
    pub fn set_surface(&mut self, b: &Bounds, width: u32, height: u32) -> (changed: bool)
        requires
            old(self).wf(*b),
            width <= MAX_SURFACE_SIDE,
            height <= MAX_SURFACE_SIDE,
        ensures
            final(self).wf(*b),
            final(self).center == old(self).center,
            final(self).zoom_milli == old(self).zoom_milli,
            final(self).half_diag == spec_isqrt(
                (width * width + height * height) as int,
            ) / 2,
            final(self).radius == spec_vis_radius(
                final(self).half_diag as int,
                final(self).zoom_milli as int,
            ),
            changed <==> final(self).half_diag != old(self).half_diag,
    {
        proof {
            lemma_mul_bound(width as int, MAX_SURFACE_SIDE as int, width as int, MAX_SURFACE_SIDE as int);
            lemma_mul_bound(height as int, MAX_SURFACE_SIDE as int, height as int, MAX_SURFACE_SIDE as int);
        }
        let n: u64 = (width as u64) * (width as u64) + (height as u64) * (height as u64);
        let d: u64 = isqrt_u64(n);
        proof {
            assert(is_isqrt(n as int, d as int));
            assert((d as int) * (d as int) <= 2_000_000_000_000_000_000);
            assert(d as int <= 1_500_000_000) by (nonlinear_arith)
                requires
                    0 <= d as int,
                    (d as int) * (d as int) <= 2_000_000_000_000_000_000,
            {
                assert(1_500_000_001int * 1_500_000_001 > 2_000_000_000_000_000_000) by (nonlinear_arith);
            }
        }
        let hd: i64 = ((d / 2) as i64);
        let changed = hd != self.half_diag;
        self.half_diag = hd;
        self.radius = vis_radius(hd, self.zoom_milli);
        changed
    }
}

/// Projects a world point through a viewport onto the surface whose center
/// is at `origin` (in thousandths of a pixel).
pub open spec fn spec_to_screen(w: PlanePoint, center: PlanePoint, zm: int, origin: ScreenPoint) -> ScreenPoint {
    ScreenPoint {
        sx: ((w.x - center.x) * zm + origin.sx) as i64,
        sy: ((w.y - center.y) * zm + origin.sy) as i64,
    }
}

/// The inverse projection, used for click hit-testing.
pub open spec fn spec_to_world(s: ScreenPoint, center: PlanePoint, zm: int, origin: ScreenPoint) -> PlanePoint {
    PlanePoint {
        x: (div_trunc(s.sx - origin.sx, zm) + center.x) as i64,
        y: (div_trunc(s.sy - origin.sy, zm) + center.y) as i64,
    }
}

/// Pure projection of a world point to screen space:
/// `(world - center) * zoom + origin`.
pub fn to_screen(w: PlanePoint, v: &ViewportState, b: &Bounds, origin: ScreenPoint) -> (s: ScreenPoint)
    requires
        v.wf(*b),
        bounded(w),
        -ORIGIN_LIMIT <= origin.sx <= ORIGIN_LIMIT,
        -ORIGIN_LIMIT <= origin.sy <= ORIGIN_LIMIT,
    ensures
        s == spec_to_screen(w, v.center, v.zoom_milli as int, origin),
        -SCREEN_LIMIT <= s.sx <= SCREEN_LIMIT,
        -SCREEN_LIMIT <= s.sy <= SCREEN_LIMIT,
{
    let zm: i64 = v.zoom_milli as i64;
    let dx: i64 = w.x - v.center.x;
    let dy: i64 = w.y - v.center.y;
    proof {
        lemma_mul_bound(dx as int, 2 * MAX_COORD as int, zm as int, MAX_ZOOM_MILLI as int);
        lemma_mul_bound(dy as int, 2 * MAX_COORD as int, zm as int, MAX_ZOOM_MILLI as int);
    }
    ScreenPoint { sx: dx * zm + origin.sx, sy: dy * zm + origin.sy }
}

/// Pure inverse projection of a screen point back to world space:
/// `(screen - origin) / zoom + center`.
pub fn to_world(s: ScreenPoint, v: &ViewportState, b: &Bounds, origin: ScreenPoint) -> (w: PlanePoint)
    requires
        v.wf(*b),
        -SCREEN_LIMIT <= s.sx <= SCREEN_LIMIT,
        -SCREEN_LIMIT <= s.sy <= SCREEN_LIMIT,
        -ORIGIN_LIMIT <= origin.sx <= ORIGIN_LIMIT,
        -ORIGIN_LIMIT <= origin.sy <= ORIGIN_LIMIT,
    ensures
        w == spec_to_world(s, v.center, v.zoom_milli as int, origin),
{
    let zm: i64 = v.zoom_milli as i64;
    let qx: i64 = div_trunc_i64(s.sx - origin.sx, zm);
    let qy: i64 = div_trunc_i64(s.sy - origin.sy, zm);
    proof {
        lemma_div_trunc_magnitude(s.sx as int - origin.sx as int, zm as int);
        lemma_div_trunc_magnitude(s.sy as int - origin.sy as int, zm as int);
    }
    PlanePoint { x: qx + v.center.x, y: qy + v.center.y }
}

/// Truncating division never grows the magnitude.
pub proof fn lemma_div_trunc_magnitude(a: int, b: int)
    requires
        1 <= b,
    ensures
        -a <= div_trunc(a, b) <= a || a < 0 && a <= div_trunc(a, b) <= -a,
        a >= 0 ==> 0 <= div_trunc(a, b) <= a,
        a < 0 ==> a <= div_trunc(a, b) <= 0,
{
    if a >= 0 {
        vstd::arithmetic::div_mod::lemma_div_nonincreasing(a, b);
        vstd::arithmetic::div_mod::lemma_div_pos_is_pos(a, b);
    } else {
        vstd::arithmetic::div_mod::lemma_div_nonincreasing(-a, b);
        vstd::arithmetic::div_mod::lemma_div_pos_is_pos(-a, b);
    }
}

/// The projection round trip is exact: for every world point and viewport,
/// mapping to the screen and back returns the same world point.
pub proof fn lemma_projector_inverse(w: PlanePoint, center: PlanePoint, zm: int, origin: ScreenPoint)
    requires
        bounded(w),
        bounded(center),
        MIN_ZOOM_MILLI <= zm <= MAX_ZOOM_MILLI,
        -ORIGIN_LIMIT <= origin.sx <= ORIGIN_LIMIT,
        -ORIGIN_LIMIT <= origin.sy <= ORIGIN_LIMIT,
    ensures
        spec_to_world(spec_to_screen(w, center, zm, origin), center, zm, origin) == w,
{
    let dx = w.x - center.x;
    let dy = w.y - center.y;
    lemma_mul_bound(dx, 2 * MAX_COORD as int, zm, MAX_ZOOM_MILLI as int);
    lemma_mul_bound(dy, 2 * MAX_COORD as int, zm, MAX_ZOOM_MILLI as int);
    let s = spec_to_screen(w, center, zm, origin);
    assert(s.sx == dx * zm + origin.sx);
    assert(s.sy == dy * zm + origin.sy);
    lemma_div_trunc_cancel(dx, zm);
    lemma_div_trunc_cancel(dy, zm);
}

/// Dividing an exact multiple of `b` by `b` (truncating) recovers the
/// factor, whatever its sign.
pub proof fn lemma_div_trunc_cancel(a: int, b: int)
    requires
        1 <= b,
    ensures
        div_trunc(a * b, b) == a,
{
    if a >= 0 {
        vstd::arithmetic::div_mod::lemma_div_multiples_vanish(a, b);
        assert(b * a == a * b) by (nonlinear_arith);
        vstd::arithmetic::mul::lemma_mul_nonnegative(a, b);
    } else {
        vstd::arithmetic::div_mod::lemma_div_multiples_vanish(-a, b);
        assert(b * (-a) == -(a * b)) by (nonlinear_arith);
        assert(a * b < 0) by (nonlinear_arith)
            requires
                a < 0,
                b >= 1,
        ;
    }
}

/// How one pan moves the center along one axis, for an in-bounds value
/// `v` of that axis and a translated step of the pan on it: never against
/// the delta's direction, by the full step unless the boundary on that
/// side absorbs it, and a value already at that boundary stays there.
proof fn lemma_pan_axis_progress(v: int, lo: int, hi: int, d: int, zm: int)
    requires
        lo <= v <= hi,
        MIN_ZOOM_MILLI <= zm <= MAX_ZOOM_MILLI,
    ensures
        d >= 0 ==> v <= clamp_int(v + ViewportState::spec_pan_delta(d, zm), lo, hi),
        d >= 0 ==> (clamp_int(v + ViewportState::spec_pan_delta(d, zm), lo, hi) == hi || clamp_int(
            v + ViewportState::spec_pan_delta(d, zm),
            lo,
            hi,
        ) == v + ViewportState::spec_pan_delta(d, zm)),
        d >= 0 && v == hi ==> clamp_int(v + ViewportState::spec_pan_delta(d, zm), lo, hi) == hi,
        d <= 0 ==> clamp_int(v + ViewportState::spec_pan_delta(d, zm), lo, hi) <= v,
        d <= 0 ==> (clamp_int(v + ViewportState::spec_pan_delta(d, zm), lo, hi) == lo || clamp_int(
            v + ViewportState::spec_pan_delta(d, zm),
            lo,
            hi,
        ) == v + ViewportState::spec_pan_delta(d, zm)),
        d <= 0 && v == lo ==> clamp_int(v + ViewportState::spec_pan_delta(d, zm), lo, hi) == lo,
        d == 0 ==> clamp_int(v + ViewportState::spec_pan_delta(d, zm), lo, hi) == v,
{
    let step = ViewportState::spec_pan_delta(d, zm);
    assert(div_trunc(0int, zm) == 0) by {
        vstd::arithmetic::div_mod::lemma_div_of0(zm);
    }
    if d >= 0 {
        assert(d * ZOOM_UNIT >= 0) by (nonlinear_arith)
            requires
                d >= 0,
        ;
        lemma_div_trunc_magnitude(d * ZOOM_UNIT, zm);
        assert(step >= 0);
    } else {
        assert(d * ZOOM_UNIT < 0) by (nonlinear_arith)
            requires
                d < 0,
        ;
        lemma_div_trunc_magnitude(d * ZOOM_UNIT, zm);
        assert(step <= 0);
    }
}

/// Where repeated pans lead: on each axis a pan never moves the center
/// against its delta, moves it by the full translated step unless the
/// bounds absorb it, and leaves a center already at the boundary exactly
/// there. Repeated pans in one direction therefore converge to the
/// boundary of the bounds and stop changing thereafter.
pub proof fn lemma_pan_converges(c: PlanePoint, b: Bounds, dx: int, dy: int, zm: int)
    requires
        b.wf(),
        b.contains_pt(c),
        MIN_ZOOM_MILLI <= zm <= MAX_ZOOM_MILLI,
    ensures
        dx >= 0 ==> c.x <= ViewportState::spec_pan_target(c, b, dx, dy, zm).x,
        dx >= 0 ==> (ViewportState::spec_pan_target(c, b, dx, dy, zm).x == b.max.x
            || ViewportState::spec_pan_target(c, b, dx, dy, zm).x == c.x
            + ViewportState::spec_pan_delta(dx, zm)),
        dx >= 0 && c.x == b.max.x ==> ViewportState::spec_pan_target(c, b, dx, dy, zm).x
            == b.max.x,
        dx <= 0 ==> ViewportState::spec_pan_target(c, b, dx, dy, zm).x <= c.x,
        dx <= 0 ==> (ViewportState::spec_pan_target(c, b, dx, dy, zm).x == b.min.x
            || ViewportState::spec_pan_target(c, b, dx, dy, zm).x == c.x
            + ViewportState::spec_pan_delta(dx, zm)),
        dx <= 0 && c.x == b.min.x ==> ViewportState::spec_pan_target(c, b, dx, dy, zm).x
            == b.min.x,
        dy >= 0 ==> c.y <= ViewportState::spec_pan_target(c, b, dx, dy, zm).y,
        dy >= 0 ==> (ViewportState::spec_pan_target(c, b, dx, dy, zm).y == b.max.y
            || ViewportState::spec_pan_target(c, b, dx, dy, zm).y == c.y
            + ViewportState::spec_pan_delta(dy, zm)),
        dy >= 0 && c.y == b.max.y ==> ViewportState::spec_pan_target(c, b, dx, dy, zm).y
            == b.max.y,
        dy <= 0 ==> ViewportState::spec_pan_target(c, b, dx, dy, zm).y <= c.y,
        dy <= 0 ==> (ViewportState::spec_pan_target(c, b, dx, dy, zm).y == b.min.y
            || ViewportState::spec_pan_target(c, b, dx, dy, zm).y == c.y
            + ViewportState::spec_pan_delta(dy, zm)),
        dy <= 0 && c.y == b.min.y ==> ViewportState::spec_pan_target(c, b, dx, dy, zm).y
            == b.min.y,
        dx == 0 && dy == 0 ==> ViewportState::spec_pan_target(c, b, dx, dy, zm) == c,
{
    lemma_pan_axis_progress(c.x as int, b.min.x as int, b.max.x as int, dx, zm);
    lemma_pan_axis_progress(c.y as int, b.min.y as int, b.max.y as int, dy, zm);
}

} // verus!
