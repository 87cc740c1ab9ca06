use vstd::prelude::*;
use crate::vector::{in_i64, Vector3};

verus! {

/// How far one tick of a held arrow key moves the player: 0.01 units.
pub const MOVE_STEP: i64 = 10_000;

/// How far one tick of a held key turns the orbiting camera, in
/// milliradians: 0.1 radians.
pub const ORBIT_STEP: i64 = 100;

/// The arrow keys held during one tick.
#[derive(Clone, Copy, Debug, PartialEq, Eq, Structural)]
pub struct ArrowKeys {
    pub up: bool,
    pub down: bool,
    pub left: bool,
    pub right: bool,
}

/// A player moved on the ground plane by the arrow keys.
#[derive(Clone, Copy, Debug, PartialEq, Eq, Structural)]
pub struct Player {
    pub position: Vector3,
    /// The facing, in quarter turns about the vertical axis, below 4:
    /// 0 faces `+x`, 2 faces `-x`.
    pub heading: u8,
}

/// A camera that orbits its target, turned by two keys.
#[derive(Clone, Copy, Debug, PartialEq, Eq, Structural)]
pub struct Orbit {
    /// The angle about the vertical axis, in milliradians.
    pub angle: i64,
}

/// Whether some key is held.
pub open spec fn any_key(k: ArrowKeys) -> bool {
    k.up || k.down || k.left || k.right
}

/// Whether a tick of `p` under `k` stays in the range of `i64` after each
/// held key, taken in the order up, down, right, left.
pub open spec fn steer_fits(p: Player, k: ArrowKeys) -> bool {
    let z1 = p.position.z - (if k.up { MOVE_STEP as int } else { 0 });
    let x1 = p.position.x + (if k.right { MOVE_STEP as int } else { 0 });
    &&& in_i64(z1)
    &&& in_i64(z1 + (if k.down { MOVE_STEP as int } else { 0 }))
    &&& in_i64(x1)
    &&& in_i64(x1 - (if k.left { MOVE_STEP as int } else { 0 }))
}

/// Whether a turn from `angle` stays in the range of `i64` after each held
/// key, taken in the order left, right.
pub open spec fn turn_fits(angle: int, left: bool, right: bool) -> bool {
    let a1 = angle + (if left { ORBIT_STEP as int } else { 0 });
    &&& in_i64(a1)
    &&& in_i64(a1 - (if right { ORBIT_STEP as int } else { 0 }))
}

/// The heading after the keys of one tick, taken in the order up, down,
/// right, left: up turns a quarter one way, down a quarter back, right faces
/// `+x` and left faces `-x`.
pub open spec fn steered_heading(h: int, k: ArrowKeys) -> int {
    let h1 = if k.up { (h + 1) % 4 } else { h };
    let h2 = if k.down { (h1 + 3) % 4 } else { h1 };
    let h3 = if k.right { 0 } else { h2 };
    if k.left { 2 } else { h3 }
}

/// The position after the keys of one tick: up goes toward `-z`, down toward
/// `+z`, right toward `+x`, left toward `-x`, each by [`MOVE_STEP`].
pub open spec fn steered_position(p: Vector3, k: ArrowKeys) -> Vector3 {
    let dz = (if k.down { MOVE_STEP as int } else { 0 }) - (if k.up { MOVE_STEP as int } else { 0 });
    let dx = (if k.right { MOVE_STEP as int } else { 0 }) - (if k.left { MOVE_STEP as int } else { 0 });
    Vector3 { x: (p.x + dx) as i64, y: p.y, z: (p.z + dz) as i64 }
}

impl Player {
    /// Well-formed: the heading is below a full turn.
    pub open spec fn wf(self) -> bool {
        self.heading < 4
    }

    /// A player at `position` that faces `+x`.
    pub fn new(position: Vector3) -> (r: Player)
        ensures
            r.wf(),
            r.position == position,
            r.heading == 0,
    {
        Player { position, heading: 0 }
    }

    /// Moves and turns the player by the keys held this tick; the result says
    /// whether any was.
    pub fn steer(&mut self, keys: ArrowKeys) -> (moved: bool)
        requires
            old(self).wf(),
            steer_fits(*old(self), keys),
        ensures
            moved == any_key(keys),
            final(self).wf(),
            final(self).position == steered_position(old(self).position, keys),
            final(self).heading == steered_heading(old(self).heading as int, keys),
    {
        let mut moved = false;
        if keys.up {
            self.position.z = self.position.z - MOVE_STEP;
            self.heading = (self.heading + 1) % 4;
            moved = true;
        }
        if keys.down {
            self.position.z = self.position.z + MOVE_STEP;
            self.heading = (self.heading + 3) % 4;
            moved = true;
        }
        if keys.right {
            self.position.x = self.position.x + MOVE_STEP;
            self.heading = 0;
            moved = true;
        }
        if keys.left {
            self.position.x = self.position.x - MOVE_STEP;
            self.heading = 2;
            moved = true;
        }
        moved
    }
}

impl Orbit {
    /// Turns the camera by [`ORBIT_STEP`] one way while `left` is held and
    /// the other way while `right` is; the result says whether either was.
    pub fn turn(&mut self, left: bool, right: bool) -> (moved: bool)
        requires
            turn_fits(old(self).angle as int, left, right),
        ensures
            moved == (left || right),
            final(self).angle == old(self).angle + (if left { ORBIT_STEP as int } else { 0 }) - (if right {
                ORBIT_STEP as int
            } else {
                0
            }),
    {
        let mut moved = false;
        if left {
            self.angle = self.angle + ORBIT_STEP;
            moved = true;
        }
        if right {
            self.angle = self.angle - ORBIT_STEP;
            moved = true;
        }
        moved
    }
}

} // verus!
