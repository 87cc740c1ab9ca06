use vstd::prelude::*;
use crate::vector::{in_i64, in_range, Vector3};

verus! {

/// One mass unit, in the thousandths that a mover's mass is counted in.
pub const MASS_UNIT: i64 = 1_000;

/// The rectangle `[0, width] x [0, height]` that a mover bounces inside, on
/// its `x` and `y` axes.
#[derive(Clone, Copy, Debug, PartialEq, Eq, Structural)]
pub struct Bounds {
    pub width: i64,
    pub height: i64,
}

/// A body moved by forces, one tick at a time.
#[derive(Clone, Copy, Debug, PartialEq, Eq, Structural)]
pub struct Mover {
    pub velocity: Vector3,
    pub acceleration: Vector3,
    pub location: Vector3,
    /// In thousandths of a mass unit; always positive.
    pub mass: i64,
}

/// The coordinate of `v` on `axis`: 0 is `x`, 1 is `y`, any other is `z`.
pub open spec fn coord(v: Vector3, axis: int) -> int {
    if axis == 0 {
        v.x as int
    } else if axis == 1 {
        v.y as int
    } else {
        v.z as int
    }
}

/// What a force component adds to the acceleration of a body of `mass`
/// thousandths: `f / mass`, rounded toward zero.
pub open spec fn share(f: int, mass: int) -> int {
    if f >= 0 {
        f * (MASS_UNIT as int) / mass
    } else {
        -((-f) * (MASS_UNIT as int) / mass)
    }
}

/// Whether `force` can be added to `acc` without leaving the range of `i64`.
pub open spec fn force_fits(acc: Vector3, force: Vector3, mass: int) -> bool {
    &&& in_range(acc.x + share(force.x as int, mass))
    &&& in_range(acc.y + share(force.y as int, mass))
    &&& in_range(acc.z + share(force.z as int, mass))
}

/// `acc` after one force is applied to a body of `mass`.
pub open spec fn pushed(acc: Vector3, force: Vector3, mass: int) -> Vector3 {
    Vector3 {
        x: (acc.x + share(force.x as int, mass)) as i64,
        y: (acc.y + share(force.y as int, mass)) as i64,
        z: (acc.z + share(force.z as int, mass)) as i64,
    }
}

/// `acc` after each force of `forces` is applied in turn.
pub open spec fn pushed_all(acc: Vector3, forces: Seq<Vector3>, mass: int) -> Vector3
    decreases forces.len(),
{
    if forces.len() == 0 {
        acc
    } else {
        pushed(pushed_all(acc, forces.drop_last(), mass), forces.last(), mass)
    }
}

/// The sum of what `forces` add on `axis`.
pub open spec fn share_sum(forces: Seq<Vector3>, mass: int, axis: int) -> int
    decreases forces.len(),
{
    if forces.len() == 0 {
        0
    } else {
        share_sum(forces.drop_last(), mass, axis) + share(coord(forces.last(), axis), mass)
    }
}

/// Whether applying `forces` in turn to `acc` stays in the range of `i64`
/// after every force.
pub open spec fn forces_fit(acc: Vector3, forces: Seq<Vector3>, mass: int) -> bool {
    forall|k: int, axis: int|
        0 <= k <= forces.len() && 0 <= axis < 3 ==> in_range(
            coord(acc, axis) + #[trigger] share_sum(forces.take(k), mass, axis),
        )
}

/// The outcome on one axis of a tick that ends at `p` with velocity `v`,
/// inside `[0, bound]`: clamped to the edge it crossed, with `v` negated.
pub open spec fn reflect(p: int, v: int, bound: int) -> (int, int) {
    if p > bound {
        (bound, -v)
    } else if p < 0 {
        (0, -v)
    } else {
        (p, v)
    }
}

/// Whether one tick of `m` stays in the range of `i64`: the new velocity on
/// the reflected axes also in its symmetric range, where it may be negated.
pub open spec fn update_fits(m: Mover) -> bool {
    &&& in_range(m.velocity.x + m.acceleration.x)
    &&& in_range(m.velocity.y + m.acceleration.y)
    &&& in_i64(m.velocity.z + m.acceleration.z)
    &&& in_i64(m.location.x + m.velocity.x + m.acceleration.x)
    &&& in_i64(m.location.y + m.velocity.y + m.acceleration.y)
    &&& in_i64(m.location.z + m.velocity.z + m.acceleration.z)
}

/// `m` after one tick inside `b`: the velocity gains the acceleration, the
/// location gains the new velocity, and the `x` and `y` axes are reflected.
pub open spec fn updated(m: Mover, b: Bounds) -> Mover {
    let vx = m.velocity.x + m.acceleration.x;
    let vy = m.velocity.y + m.acceleration.y;
    let vz = m.velocity.z + m.acceleration.z;
    let rx = reflect(m.location.x + vx, vx, b.width as int);
    let ry = reflect(m.location.y + vy, vy, b.height as int);
    Mover {
        velocity: Vector3 { x: rx.1 as i64, y: ry.1 as i64, z: vz as i64 },
        location: Vector3 { x: rx.0 as i64, y: ry.0 as i64, z: (m.location.z + vz) as i64 },
        ..m
    }
}

/// What a sequence of forces adds on one axis is the sum of what each adds.
pub proof fn lemma_share_sum_concat(a: Seq<Vector3>, b: Seq<Vector3>, mass: int, axis: int)
    ensures
        share_sum(a + b, mass, axis) == share_sum(a, mass, axis) + share_sum(b, mass, axis),
    decreases b.len(),
{
    if b.len() == 0 {
        assert(a + b =~= a);
    } else {
        lemma_share_sum_concat(a, b.drop_last(), mass, axis);
        assert((a + b).drop_last() =~= a + b.drop_last());
        assert((a + b).last() == b.last());
    }
}

/// Forces applied in turn, without leaving the range of `i64`, leave the
/// starting acceleration plus the sum of what each force adds.
pub proof fn lemma_pushed_all_sum(acc: Vector3, forces: Seq<Vector3>, mass: int)
    requires
        forces_fit(acc, forces, mass),
    ensures
        forall|axis: int|
            0 <= axis < 3 ==> #[trigger] coord(pushed_all(acc, forces, mass), axis) == coord(acc, axis)
                + share_sum(forces, mass, axis),
    decreases forces.len(),
{
    if forces.len() > 0 {
        let init = forces.drop_last();
        assert forall|k: int, axis: int| 0 <= k <= init.len() && 0 <= axis < 3 implies in_range(
            coord(acc, axis) + #[trigger] share_sum(init.take(k), mass, axis),
        ) by {
            assert(init.take(k) =~= forces.take(k));
        }
        lemma_pushed_all_sum(acc, init, mass);
        assert(forces.take(forces.len() as int) =~= forces);
        assert forall|axis: int| 0 <= axis < 3 implies #[trigger] coord(pushed_all(acc, forces, mass), axis)
            == coord(acc, axis) + share_sum(forces, mass, axis) by {
            assert(in_range(coord(acc, axis) + share_sum(forces.take(forces.len() as int), mass, axis)));
            let prev = pushed_all(acc, init, mass);
            let f = forces.last();
            assert(pushed_all(acc, forces, mass) == pushed(prev, f, mass));
            assert(share_sum(forces, mass, axis) == share_sum(init, mass, axis) + share(coord(f, axis), mass));
            assert(coord(prev, axis) == coord(acc, axis) + share_sum(init, mass, axis));
            if axis == 0 {
                assert(coord(pushed(prev, f, mass), 0) == coord(prev, 0) + share(coord(f, 0), mass));
            } else if axis == 1 {
                assert(coord(pushed(prev, f, mass), 1) == coord(prev, 1) + share(coord(f, 1), mass));
            } else {
                assert(coord(pushed(prev, f, mass), 2) == coord(prev, 2) + share(coord(f, 2), mass));
            }
        }
    } else {
        assert forall|axis: int| 0 <= axis < 3 implies #[trigger] coord(pushed_all(acc, forces, mass), axis)
            == coord(acc, axis) + share_sum(forces, mass, axis) by {}
    }
}

/// Taking one force out of a sequence takes away what it adds.
proof fn lemma_share_sum_remove(s: Seq<Vector3>, i: int, mass: int, axis: int)
    requires
        0 <= i < s.len(),
    ensures
        share_sum(s, mass, axis) == share_sum(s.remove(i), mass, axis) + share(coord(s[i], axis), mass),
{
    let one = seq![s[i]];
    assert(s =~= s.take(i) + (one + s.skip(i + 1)));
    assert(s.remove(i) =~= s.take(i) + s.skip(i + 1));
    lemma_share_sum_concat(s.take(i), one + s.skip(i + 1), mass, axis);
    lemma_share_sum_concat(one, s.skip(i + 1), mass, axis);
    lemma_share_sum_concat(s.take(i), s.skip(i + 1), mass, axis);
    assert(one.drop_last() =~= Seq::<Vector3>::empty());
    assert(share_sum(one.drop_last(), mass, axis) == 0);
    assert(share_sum(one, mass, axis) == share(coord(s[i], axis), mass));
}

/// Two sequences that hold the same forces add the same on every axis.
pub proof fn lemma_share_sum_permutation(a: Seq<Vector3>, b: Seq<Vector3>, mass: int, axis: int)
    requires
        a.to_multiset() == b.to_multiset(),
    ensures
        share_sum(a, mass, axis) == share_sum(b, mass, axis),
    decreases a.len(),
{
    broadcast use vstd::seq_lib::group_to_multiset_ensures;

    if a.len() == 0 {
        assert(b.len() == b.to_multiset().len());
    } else {
        let x = a.last();
        let last = a.len() - 1;
        assert(a.remove(last) =~= a.drop_last());
        assert(a.contains(x)) by {
            assert(a[last] == x);
        }
        assert(a.to_multiset().count(x) > 0);
        assert(b.contains(x));
        let i = choose|i: int| 0 <= i < b.len() && b[i] == x;
        assert(a.remove(last).to_multiset() == a.to_multiset().remove(a[last]));
        assert(b.remove(i).to_multiset() == b.to_multiset().remove(b[i]));
        lemma_share_sum_permutation(a.drop_last(), b.remove(i), mass, axis);
        lemma_share_sum_remove(b, i, mass, axis);
    }
}

/// Forces accumulate independently of their order: two sequences that hold
/// the same forces, each applied in turn without leaving the range of `i64`,
/// leave the same acceleration.
pub proof fn lemma_forces_any_order(acc: Vector3, a: Seq<Vector3>, b: Seq<Vector3>, mass: int)
    requires
        a.to_multiset() == b.to_multiset(),
        forces_fit(acc, a, mass),
        forces_fit(acc, b, mass),
    ensures
        pushed_all(acc, a, mass) == pushed_all(acc, b, mass),
{
    lemma_pushed_all_sum(acc, a, mass);
    lemma_pushed_all_sum(acc, b, mass);
    lemma_share_sum_permutation(a, b, mass, 0);
    lemma_share_sum_permutation(a, b, mass, 1);
    lemma_share_sum_permutation(a, b, mass, 2);
    let l = pushed_all(acc, a, mass);
    let r = pushed_all(acc, b, mass);
    assert(coord(l, 0) == coord(r, 0));
    assert(coord(l, 1) == coord(r, 1));
    assert(coord(l, 2) == coord(r, 2));
}

/// In particular, applying the forces of `a` and then those of `b` leaves the
/// same acceleration as applying those of `b` and then those of `a`, whenever
/// both orders stay in range.
pub proof fn lemma_forces_commute(acc: Vector3, a: Seq<Vector3>, b: Seq<Vector3>, mass: int)
    requires
        forces_fit(acc, a + b, mass),
        forces_fit(acc, b + a, mass),
    ensures
        pushed_all(acc, a + b, mass) == pushed_all(acc, b + a, mass),
{
    vstd::seq_lib::lemma_seq_union_to_multiset_commutative(a, b);
    lemma_forces_any_order(acc, a + b, b + a, mass);
}

/// Forces group freely: applying `a` and then `b` to the acceleration that
/// `a` left is applying `a + b` at once.
pub proof fn lemma_forces_group(acc: Vector3, a: Seq<Vector3>, b: Seq<Vector3>, mass: int)
    ensures
        pushed_all(pushed_all(acc, a, mass), b, mass) == pushed_all(acc, a + b, mass),
    decreases b.len(),
{
    if b.len() == 0 {
        assert(a + b =~= a);
    } else {
        lemma_forces_group(acc, a, b.drop_last(), mass);
        assert((a + b).drop_last() =~= a + b.drop_last());
        assert((a + b).last() == b.last());
    }
}

/// A body at rest inside its bounds, with no acceleration, stays exactly as
/// it is through a tick.
pub proof fn lemma_rest_is_fixed(m: Mover, b: Bounds)
    requires
        m.velocity == Vector3::zero_spec(),
        m.acceleration == Vector3::zero_spec(),
        0 <= m.location.x <= b.width,
        0 <= m.location.y <= b.height,
    ensures
        update_fits(m),
        updated(m, b) == m,
{
}

/// What a force component of `f` adds to the acceleration of a body of `mass`.
fn share_exec(f: i64, mass: i64) -> (r: i128)
    requires
        mass > 0,
    ensures
        r == share(f as int, mass as int),
{
    let unit: u128 = MASS_UNIT as u128;
    if f >= 0 {
        let m: u128 = f as u128;
        assert(m * unit <= 0x8000_0000_0000_0000 * 1000) by (nonlinear_arith)
            requires
                m <= 0x8000_0000_0000_0000u128,
                unit == 1000,
        ;
        let q: u128 = m * unit / (mass as u128);
        assert(q <= m * unit) by (nonlinear_arith)
            requires
                q == (m * unit) as int / (mass as int),
                mass >= 1,
        ;
        q as i128
    } else {
        let m: u128 = (-(f as i128)) as u128;
        assert(m * unit <= 0x8000_0000_0000_0000 * 1000) by (nonlinear_arith)
            requires
                m <= 0x8000_0000_0000_0000u128,
                unit == 1000,
        ;
        let q: u128 = m * unit / (mass as u128);
        assert(q <= m * unit) by (nonlinear_arith)
            requires
                q == (m * unit) as int / (mass as int),
                mass >= 1,
        ;
        -(q as i128)
    }
}

fn fits_i128(v: i128) -> (r: bool)
    ensures
        r == in_range(v as int),
{
    -(i64::MAX as i128) <= v && v <= i64::MAX as i128
}

fn in_i64_exec(v: i128) -> (r: bool)
    ensures
        r == in_i64(v as int),
{
    i64::MIN as i128 <= v && v <= i64::MAX as i128
}

/// One axis of a tick: the new location and velocity.
fn reflect_exec(p: i64, v: i64, bound: i64) -> (r: (i64, i64))
    requires
        in_range(v as int),
    ensures
        r.0 == reflect(p as int, v as int, bound as int).0,
        r.1 == reflect(p as int, v as int, bound as int).1,
{
    if p > bound {
        (bound, -v)
    } else if p < 0 {
        (0, -v)
    } else {
        (p, v)
    }
}

impl Mover {
    /// Well-formed: the mass is positive.
    pub open spec fn wf(self) -> bool {
        self.mass > 0
    }

    /// A body at rest at `location`, or `None` when `mass` is not positive.
    pub fn new(location: Vector3, mass: i64) -> (r: Option<Mover>)
        ensures
            mass <= 0 <==> r is None,
            r matches Some(m) ==> m.wf() && m.location == location && m.mass == mass
                && m.velocity == Vector3::zero_spec() && m.acceleration == Vector3::zero_spec(),
    {
        if mass <= 0 {
            None
        } else {
            Some(Mover { velocity: Vector3::zero(), acceleration: Vector3::zero(), location, mass })
        }
    }

    /// Adds `force / mass` to the acceleration.
    pub fn apply_force(&mut self, force: &Vector3)
        requires
            old(self).wf(),
            force_fits(old(self).acceleration, *force, old(self).mass as int),
        ensures
            final(self).acceleration == pushed(old(self).acceleration, *force, old(self).mass as int),
            final(self).velocity == old(self).velocity,
            final(self).location == old(self).location,
            final(self).mass == old(self).mass,
    {
        let ax = self.acceleration.x as i128 + share_exec(force.x, self.mass);
        let ay = self.acceleration.y as i128 + share_exec(force.y, self.mass);
        let az = self.acceleration.z as i128 + share_exec(force.z, self.mass);
        self.acceleration = Vector3 { x: ax as i64, y: ay as i64, z: az as i64 };
    }

    /// Whether [`Mover::apply_force`] may be called with `force`.
    pub fn can_apply_force(&self, force: &Vector3) -> (r: bool)
        ensures
            r == (self.wf() && force_fits(self.acceleration, *force, self.mass as int)),
    {
        if self.mass <= 0 {
            return false;
        }
        let ax = self.acceleration.x as i128 + share_exec(force.x, self.mass);
        let ay = self.acceleration.y as i128 + share_exec(force.y, self.mass);
        let az = self.acceleration.z as i128 + share_exec(force.z, self.mass);
        fits_i128(ax) && fits_i128(ay) && fits_i128(az)
    }

    /// Whether [`Mover::update`] may be called.
    pub fn can_update(&self) -> (r: bool)
        ensures
            r == update_fits(*self),
    {
        let vx = self.velocity.x as i128 + self.acceleration.x as i128;
        let vy = self.velocity.y as i128 + self.acceleration.y as i128;
        let vz = self.velocity.z as i128 + self.acceleration.z as i128;
        fits_i128(vx) && fits_i128(vy) && in_i64_exec(vz) && in_i64_exec(self.location.x as i128 + vx)
            && in_i64_exec(self.location.y as i128 + vy) && in_i64_exec(self.location.z as i128 + vz)
    }

    /// Sets the acceleration back to zero, so that the next tick starts from
    /// the forces applied after this call alone.
    pub fn clear_acceleration(&mut self)
        ensures
            *final(self) == (Mover { acceleration: Vector3::zero_spec(), ..*old(self) }),
    {
        self.acceleration = Vector3::zero();
    }

    /// Advances one tick inside `bounds`: see [`updated`]. The acceleration
    /// is kept.
    pub fn update(&mut self, bounds: Bounds)
        requires
            update_fits(*old(self)),
        ensures
            *final(self) == updated(*old(self), bounds),
    {
        let vx = self.velocity.x + self.acceleration.x;
        let vy = self.velocity.y + self.acceleration.y;
        let vz = self.velocity.z + self.acceleration.z;
        let (px, vx) = reflect_exec(self.location.x + vx, vx, bounds.width);
        let (py, vy) = reflect_exec(self.location.y + vy, vy, bounds.height);
        let pz = self.location.z + vz;
        self.velocity = Vector3 { x: vx, y: vy, z: vz };
        self.location = Vector3 { x: px, y: py, z: pz };
    }
}

} // verus!
