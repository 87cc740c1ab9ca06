use vstd::prelude::*;
use crate::mover::{force_fits, pushed, update_fits, updated, Bounds, Mover};
use crate::vector::Vector3;

verus! {

/// What becomes of a mover's acceleration between ticks.
#[derive(Clone, Copy, Debug, PartialEq, Eq, Structural)]
pub enum AccelerationPolicy {
    /// The acceleration is kept, so a constant force adds to it every tick.
    Accumulate,
    /// The acceleration is set to zero before the forces of each tick.
    ResetEachTick,
}

/// The movers of a scene and the forces and bounds that they share.
pub struct World {
    pub movers: Vec<Mover>,
    pub wind: Vector3,
    pub gravity: Vector3,
    pub bounds: Bounds,
    pub policy: AccelerationPolicy,
}

/// `m` as a tick under `policy` starts it.
pub open spec fn tick_start(m: Mover, policy: AccelerationPolicy) -> Mover {
    match policy {
        AccelerationPolicy::Accumulate => m,
        AccelerationPolicy::ResetEachTick => Mover { acceleration: Vector3::zero_spec(), ..m },
    }
}

/// `m` once `wind` and then `gravity` are applied at the start of a tick.
pub open spec fn tick_pushed(m: Mover, wind: Vector3, gravity: Vector3, policy: AccelerationPolicy) -> Mover {
    let s = tick_start(m, policy);
    Mover {
        acceleration: pushed(pushed(s.acceleration, wind, s.mass as int), gravity, s.mass as int),
        ..s
    }
}

/// Whether one tick of `m` is well defined and stays in the range of `i64`.
pub open spec fn tick_fits(m: Mover, wind: Vector3, gravity: Vector3, policy: AccelerationPolicy) -> bool {
    let s = tick_start(m, policy);
    &&& m.wf()
    &&& force_fits(s.acceleration, wind, m.mass as int)
    &&& force_fits(pushed(s.acceleration, wind, m.mass as int), gravity, m.mass as int)
    &&& update_fits(tick_pushed(m, wind, gravity, policy))
}

/// `m` after one tick: the policy's start, the wind, the gravity, then the
/// move inside `bounds`.
pub open spec fn ticked(
    m: Mover,
    wind: Vector3,
    gravity: Vector3,
    bounds: Bounds,
    policy: AccelerationPolicy,
) -> Mover {
    updated(tick_pushed(m, wind, gravity, policy), bounds)
}

/// One tick of `m`, or `None` when it would not fit.
fn tick_one(m: &Mover, wind: &Vector3, gravity: &Vector3, bounds: Bounds, policy: AccelerationPolicy) -> (r:
    Option<Mover>)
    ensures
        r is Some <==> tick_fits(*m, *wind, *gravity, policy),
        r matches Some(n) ==> n == ticked(*m, *wind, *gravity, bounds, policy),
{
    let mut n = *m;
    match policy {
        AccelerationPolicy::Accumulate => {},
        AccelerationPolicy::ResetEachTick => n.clear_acceleration(),
    }
    if !n.can_apply_force(wind) {
        return None;
    }
    n.apply_force(wind);
    if !n.can_apply_force(gravity) {
        return None;
    }
    n.apply_force(gravity);
    if !n.can_update() {
        return None;
    }
    n.update(bounds);
    Some(n)
}

impl World {
    /// A scene with no movers yet.
    pub fn new(wind: Vector3, gravity: Vector3, bounds: Bounds, policy: AccelerationPolicy) -> (r: World)
        ensures
            r.movers@.len() == 0,
            r.wind == wind,
            r.gravity == gravity,
            r.bounds == bounds,
            r.policy == policy,
    {
        World { movers: Vec::new(), wind, gravity, bounds, policy }
    }

    /// Adds `m` to the scene and returns its index, which stays its handle.
    pub fn add_mover(&mut self, m: Mover) -> (r: usize)
        ensures
            final(self).movers@ == old(self).movers@.push(m),
            r == old(self).movers@.len(),
            final(self).wind == old(self).wind,
            final(self).gravity == old(self).gravity,
            final(self).bounds == old(self).bounds,
            final(self).policy == old(self).policy,
    {
        let r = self.movers.len();
        self.movers.push(m);
        r
    }

    /// Takes the size of the last of `events`, if there is one.
    pub fn resize(&mut self, events: &Vec<Bounds>)
        ensures
            final(self).bounds == (if events@.len() == 0 { old(self).bounds } else { events@.last() }),
            final(self).movers@ == old(self).movers@,
            final(self).wind == old(self).wind,
            final(self).gravity == old(self).gravity,
            final(self).policy == old(self).policy,
    {
        let n = events.len();
        if n > 0 {
            self.bounds = events[n - 1];
        }
    }

    /// Advances every mover one tick under the wind, the gravity and the
    /// bounds of the scene, each on its own: a mover whose tick would not fit
    /// stays as it is. The result says, for each mover, whether it moved.
    pub fn step(&mut self) -> (fitted: Vec<bool>)
        ensures
            fitted@.len() == old(self).movers@.len(),
            final(self).movers@.len() == old(self).movers@.len(),
            forall|i: int|
                0 <= i < old(self).movers@.len() ==> #[trigger] fitted@[i] == tick_fits(
                    old(self).movers@[i],
                    old(self).wind,
                    old(self).gravity,
                    old(self).policy,
                ),
            forall|i: int|
                0 <= i < old(self).movers@.len() ==> #[trigger] final(self).movers@[i] == (if tick_fits(
                    old(self).movers@[i],
                    old(self).wind,
                    old(self).gravity,
                    old(self).policy,
                ) {
                    ticked(old(self).movers@[i], old(self).wind, old(self).gravity, old(self).bounds, old(self).policy)
                } else {
                    old(self).movers@[i]
                }),
            final(self).wind == old(self).wind,
            final(self).gravity == old(self).gravity,
            final(self).bounds == old(self).bounds,
            final(self).policy == old(self).policy,
    {
        let mut next: Vec<Mover> = Vec::new();
        let mut fitted: Vec<bool> = Vec::new();
        let n = self.movers.len();
        let mut i: usize = 0;
        while i < n
            invariant
                n == self.movers@.len(),
                0 <= i <= n,
                next@.len() == i,
                fitted@.len() == i,
                forall|j: int|
                    0 <= j < i ==> #[trigger] fitted@[j] == tick_fits(
                        self.movers@[j],
                        self.wind,
                        self.gravity,
                        self.policy,
                    ),
                forall|j: int|
                    0 <= j < i ==> #[trigger] next@[j] == (if tick_fits(
                        self.movers@[j],
                        self.wind,
                        self.gravity,
                        self.policy,
                    ) {
                        ticked(self.movers@[j], self.wind, self.gravity, self.bounds, self.policy)
                    } else {
                        self.movers@[j]
                    }),
            decreases n - i,
        {
            match tick_one(&self.movers[i], &self.wind, &self.gravity, self.bounds, self.policy) {
                Some(m) => {
                    next.push(m);
                    fitted.push(true);
                },
                None => {
                    next.push(self.movers[i]);
                    fitted.push(false);
                },
            }
            i = i + 1;
        }
        self.movers = next;
        fitted
    }
}

} // verus!
