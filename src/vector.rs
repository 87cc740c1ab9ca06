use vstd::prelude::*;
use vstd::arithmetic::div_mod::{
    lemma_div_is_ordered, lemma_div_is_ordered_by_denominator, lemma_div_multiples_vanish,
};
use vstd::arithmetic::mul::lemma_mul_inequality;

verus! {

/// One world unit, in the micro-units that every coordinate is counted in.
pub const UNIT: i64 = 1_000_000;

/// The gain that closes a whole gap in one step: gains are counted in
/// billionths.
pub const GAIN_ONE: u64 = 1_000_000_000;

/// Whether `v` lies in the symmetric range of `i64`, where negation is safe.
pub open spec fn in_range(v: int) -> bool {
    -(i64::MAX as int) <= v <= i64::MAX as int
}

/// Whether `v` lies in the range of `i64`.
pub open spec fn in_i64(v: int) -> bool {
    i64::MIN <= v <= i64::MAX
}

/// `d` scaled by `gain / GAIN_ONE`, rounded toward zero.
pub open spec fn scale(d: int, gain: int) -> int {
    if d >= 0 {
        d * gain / (GAIN_ONE as int)
    } else {
        -((-d) * gain / (GAIN_ONE as int))
    }
}

/// One coordinate moved from `from` toward `to` by `gain` of the gap.
pub open spec fn approach_coord(from: int, to: int, gain: int) -> int {
    from + scale(to - from, gain)
}

/// A point or a displacement in space, each coordinate in micro-units.
#[derive(Clone, Copy, Debug, PartialEq, Eq, Structural)]
pub struct Vector3 {
    pub x: i64,
    pub y: i64,
    pub z: i64,
}

/// The squared distance between `a` and `b`.
pub open spec fn dist_sq(a: Vector3, b: Vector3) -> int {
    (b.x - a.x) * (b.x - a.x) + (b.y - a.y) * (b.y - a.y) + (b.z - a.z) * (b.z - a.z)
}

/// Whether `b` lies farther than `threshold` from `a`.
pub open spec fn farther_than(a: Vector3, b: Vector3, threshold: int) -> bool {
    dist_sq(a, b) > threshold * threshold
}

/// `from` moved by `gain` of its gap toward `to` when the gap is longer than
/// `threshold`, and `from` itself otherwise.
pub open spec fn approach(from: Vector3, to: Vector3, threshold: int, gain: int) -> Vector3 {
    if farther_than(from, to, threshold) {
        Vector3 {
            x: approach_coord(from.x as int, to.x as int, gain) as i64,
            y: approach_coord(from.y as int, to.y as int, gain) as i64,
            z: approach_coord(from.z as int, to.z as int, gain) as i64,
        }
    } else {
        from
    }
}

/// Whether [`approach`] stays in the range of `i64`.
pub open spec fn approach_fits(from: Vector3, to: Vector3, threshold: int, gain: int) -> bool {
    farther_than(from, to, threshold) ==> {
        &&& in_i64(approach_coord(from.x as int, to.x as int, gain))
        &&& in_i64(approach_coord(from.y as int, to.y as int, gain))
        &&& in_i64(approach_coord(from.z as int, to.z as int, gain))
    }
}

/// A scaled gap never exceeds the gap, and keeps its sign.
pub proof fn lemma_scale_bounded(d: int, gain: int)
    requires
        0 <= gain <= GAIN_ONE,
    ensures
        d >= 0 ==> 0 <= scale(d, gain) <= d,
        d < 0 ==> d <= scale(d, gain) <= 0,
{
    let g = GAIN_ONE as int;
    let m = if d >= 0 { d } else { -d };
    lemma_mul_inequality(0, gain, m);
    lemma_mul_inequality(gain, g, m);
    assert(0 <= m * gain <= m * g) by (nonlinear_arith)
        requires
            0 <= gain <= g,
            m >= 0,
    ;
    lemma_div_is_ordered(0, m * gain, g);
    lemma_div_is_ordered(m * gain, g * m, g);
    lemma_div_multiples_vanish(m, g);
}

/// A coordinate moved toward a target lies between where it was and the target.
pub proof fn lemma_approach_coord_between(from: int, to: int, gain: int)
    requires
        0 <= gain <= GAIN_ONE,
    ensures
        from <= to ==> from <= approach_coord(from, to, gain) <= to,
        to <= from ==> to <= approach_coord(from, to, gain) <= from,
{
    lemma_scale_bounded(to - from, gain);
}

/// A step whose unscaled product exceeds `u128` carries any `i64` out of
/// range.
proof fn lemma_far_step_overflows(from: int, d: int, gain: int)
    requires
        i64::MIN <= from <= i64::MAX,
        gain >= 0,
        (if d >= 0 { d } else { -d }) * gain > u128::MAX,
    ensures
        !in_i64(approach_coord(from, from + d, gain)),
{
    let m = if d >= 0 { d } else { -d };
    let g = GAIN_ONE as int;
    let big: int = 0x4_0000_0000_0000_0000_0000_0000;
    assert(big * g <= m * gain);
    lemma_div_is_ordered(big * g, m * gain, g);
    lemma_div_multiples_vanish(big, g);
    assert(g * big == big * g) by (nonlinear_arith);
    assert((from + d) - from == d);
}

/// One coordinate of [`Vector3::approach`], or `None` when it leaves the
/// range of `i64`.
fn approach_coord_exec(from: i64, to: i64, gain: u128) -> (r: Option<i64>)
    ensures
        r is Some <==> in_i64(approach_coord(from as int, to as int, gain as int)),
        r matches Some(v) ==> v == approach_coord(from as int, to as int, gain as int),
{
    let d: i128 = to as i128 - from as i128;
    let m: u128 = if d >= 0 { d as u128 } else { (-d) as u128 };
    match m.checked_mul(gain) {
        None => {
            proof {
                lemma_far_step_overflows(from as int, d as int, gain as int);
            }
            None
        },
        Some(p) => {
            let q: u128 = p / (GAIN_ONE as u128);
            proof {
                lemma_div_is_ordered_by_denominator(p as int, 4, GAIN_ONE as int);
            }
            let r: i128 = if d >= 0 {
                from as i128 + q as i128
            } else {
                from as i128 - q as i128
            };
            if i64::MIN as i128 <= r && r <= i64::MAX as i128 {
                Some(r as i64)
            } else {
                None
            }
        },
    }
}

impl Vector3 {
    pub open spec fn zero_spec() -> Vector3 {
        Vector3 { x: 0, y: 0, z: 0 }
    }

    /// The vector with all three coordinates zero.
    pub fn zero() -> (r: Vector3)
        ensures
            r == Vector3::zero_spec(),
    {
        Vector3 { x: 0, y: 0, z: 0 }
    }

    /// The vector with the given coordinates.
    pub fn new(x: i64, y: i64, z: i64) -> (r: Vector3)
        ensures
            r.x == x && r.y == y && r.z == z,
    {
        Vector3 { x, y, z }
    }

    /// Whether `other` lies strictly farther than `threshold` from `self`.
    pub fn farther_than(&self, other: &Vector3, threshold: u32) -> (r: bool)
        ensures
            r == farther_than(*self, *other, threshold as int),
    {
        let t: i128 = threshold as i128;
        let dx: i128 = other.x as i128 - self.x as i128;
        let dy: i128 = other.y as i128 - self.y as i128;
        let dz: i128 = other.z as i128 - self.z as i128;
        let ax: i128 = if dx < 0 { -dx } else { dx };
        let ay: i128 = if dy < 0 { -dy } else { dy };
        let az: i128 = if dz < 0 { -dz } else { dz };
        if ax > t || ay > t || az > t {
            proof {
                lemma_mul_inequality(0, ax as int, ax as int);
                lemma_mul_inequality(0, ay as int, ay as int);
                lemma_mul_inequality(0, az as int, az as int);
                assert(ax * ax > t * t || ay * ay > t * t || az * az > t * t) by (nonlinear_arith)
                    requires
                        ax > t || ay > t || az > t,
                        t >= 0,
                ;
                assert(dx * dx == ax * ax && dy * dy == ay * ay && dz * dz == az * az) by (nonlinear_arith)
                    requires
                        ax == dx || ax == -dx,
                        ay == dy || ay == -dy,
                        az == dz || az == -dz,
                ;
            }
            true
        } else {
            assert(ax * ax <= t * t && ay * ay <= t * t && az * az <= t * t) by (nonlinear_arith)
                requires
                    0 <= ax <= t,
                    0 <= ay <= t,
                    0 <= az <= t,
            ;
            assert(t * t <= 0xffff_ffff * 0xffff_ffff) by (nonlinear_arith)
                requires
                    0 <= t <= 0xffff_ffff,
            ;
            assert(dx * dx == ax * ax && dy * dy == ay * ay && dz * dz == az * az) by (nonlinear_arith)
                requires
                    ax == dx || ax == -dx,
                    ay == dy || ay == -dy,
                    az == dz || az == -dz,
            ;
            ax * ax + ay * ay + az * az > t * t
        }
    }

    /// `self` moved by `gain` billionths of its gap toward `target`, rounded
    /// toward zero on each axis, when the gap is longer than `threshold`;
    /// `self` unchanged when it is not; `None` when the move leaves the range
    /// of `i64`.
    pub fn approach(&self, target: &Vector3, threshold: u32, gain: u128) -> (r: Option<Vector3>)
        ensures
            r is Some <==> approach_fits(*self, *target, threshold as int, gain as int),
            r matches Some(v) ==> v == approach(*self, *target, threshold as int, gain as int),
    {
        if self.farther_than(target, threshold) {
            let x = approach_coord_exec(self.x, target.x, gain);
            let y = approach_coord_exec(self.y, target.y, gain);
            let z = approach_coord_exec(self.z, target.z, gain);
            match (x, y, z) {
                (Some(x), Some(y), Some(z)) => Some(Vector3 { x, y, z }),
                _ => None,
            }
        } else {
            Some(*self)
        }
    }
}

} // verus!
