use vstd::prelude::*;
use crate::vector::{
    approach, approach_coord, approach_fits, farther_than, lemma_approach_coord_between, lemma_scale_bounded,
    scale, Vector3, GAIN_ONE,
};

verus! {

/// Below this distance from its target the focus does not move: 0.2 units.
pub const DEAD_ZONE: u32 = 200_000;

/// Below this distance from the subject the camera rig does not move: 4 units.
pub const RIG_RADIUS: u32 = 4_000_000;

/// The smallest gain at which every tick outside the dead zone moves the
/// focus by at least one micro-unit.
pub const SETTLING_GAIN: u64 = 8_661;

/// The gain of one tick, in billionths: `speed_milli` thousandths per second
/// over `elapsed_micros` microseconds.
pub open spec fn gain_of(elapsed_micros: int, speed_milli: int) -> int {
    elapsed_micros * speed_milli
}

/// Where a camera looks and stands, smoothed toward a subject.
#[derive(Clone, Copy, Debug, PartialEq, Eq, Structural)]
pub struct CameraFollow {
    /// Where the camera should look.
    pub desired_focus: Vector3,
    /// Where the camera looks now.
    pub current_focus: Vector3,
    /// Where the camera rig stands.
    pub position: Vector3,
    /// Where the camera should look when there is no subject.
    pub reset_focus: Vector3,
}

/// Where the camera should look: at the subject, or at `reset` when there is
/// none.
pub open spec fn desired_of(subject: Option<Vector3>, reset: Vector3) -> Vector3 {
    match subject {
        Some(s) => s,
        None => reset,
    }
}

/// The sum of the gaps between `a` and `b` on the three axes.
pub open spec fn gap_l1(a: Vector3, b: Vector3) -> int {
    axis_gap(a.x as int, b.x as int) + axis_gap(a.y as int, b.y as int) + axis_gap(a.z as int, b.z as int)
}

/// The distance between `a` and `b` on one axis.
pub open spec fn axis_gap(a: int, b: int) -> int {
    if b >= a {
        b - a
    } else {
        a - b
    }
}

/// The focus `from` after `n` ticks of following a still target `to`.
pub open spec fn focus_after(from: Vector3, to: Vector3, gain: int, n: nat) -> Vector3
    decreases n,
{
    if n == 0 {
        from
    } else {
        focus_after(approach(from, to, DEAD_ZONE as int, gain), to, gain, (n - 1) as nat)
    }
}

fn gain_exec(elapsed_micros: u64, speed_milli: u64) -> (r: u128)
    ensures
        r == gain_of(elapsed_micros as int, speed_milli as int),
{
    assert(elapsed_micros * speed_milli <= 0xffff_ffff_ffff_ffff * 0xffff_ffff_ffff_ffff) by (nonlinear_arith)
        requires
            elapsed_micros <= 0xffff_ffff_ffff_ffffu64,
            speed_milli <= 0xffff_ffff_ffff_ffffu64,
    ;
    elapsed_micros as u128 * speed_milli as u128
}

impl CameraFollow {
    /// A camera at `position` that looks at `focus`, and falls back to
    /// `reset_focus` when it loses its subject.
    pub fn new(focus: Vector3, position: Vector3, reset_focus: Vector3) -> (r: CameraFollow)
        ensures
            r.desired_focus == focus,
            r.current_focus == focus,
            r.position == position,
            r.reset_focus == reset_focus,
    {
        CameraFollow { desired_focus: focus, current_focus: focus, position, reset_focus }
    }

    /// Retargets the camera on `subject` (or on the reset focus when there is
    /// none) and moves the focus toward it by `speed_milli / 1000` per second
    /// of the gap, over `elapsed_micros` microseconds, unless the gap is
    /// within the dead zone. Where that move would leave the range of `i64`
    /// the focus stays and the result is `false`.
    pub fn update_focus(&mut self, subject: Option<Vector3>, elapsed_micros: u64, speed_milli: u64) -> (ok:
        bool)
        ensures
            final(self).desired_focus == desired_of(subject, old(self).reset_focus),
            ok == approach_fits(
                old(self).current_focus,
                desired_of(subject, old(self).reset_focus),
                DEAD_ZONE as int,
                gain_of(elapsed_micros as int, speed_milli as int),
            ),
            final(self).current_focus == (if ok {
                approach(
                    old(self).current_focus,
                    desired_of(subject, old(self).reset_focus),
                    DEAD_ZONE as int,
                    gain_of(elapsed_micros as int, speed_milli as int),
                )
            } else {
                old(self).current_focus
            }),
            final(self).position == old(self).position,
            final(self).reset_focus == old(self).reset_focus,
    {
        self.desired_focus = match subject {
            Some(s) => s,
            None => self.reset_focus,
        };
        let gain = gain_exec(elapsed_micros, speed_milli);
        match self.current_focus.approach(&self.desired_focus, DEAD_ZONE, gain) {
            Some(f) => {
                self.current_focus = f;
                true
            },
            None => false,
        }
    }

    /// Moves the camera rig toward `subject` in the same way, when it is
    /// farther than [`RIG_RADIUS`]. Where that move would leave the range of
    /// `i64` the rig stays and the result is `false`.
    pub fn follow_rig(&mut self, subject: &Vector3, elapsed_micros: u64, speed_milli: u64) -> (ok: bool)
        ensures
            ok == approach_fits(
                old(self).position,
                *subject,
                RIG_RADIUS as int,
                gain_of(elapsed_micros as int, speed_milli as int),
            ),
            final(self).position == (if ok {
                approach(
                    old(self).position,
                    *subject,
                    RIG_RADIUS as int,
                    gain_of(elapsed_micros as int, speed_milli as int),
                )
            } else {
                old(self).position
            }),
            final(self).desired_focus == old(self).desired_focus,
            final(self).current_focus == old(self).current_focus,
            final(self).reset_focus == old(self).reset_focus,
    {
        let gain = gain_exec(elapsed_micros, speed_milli);
        match self.position.approach(subject, RIG_RADIUS, gain) {
            Some(p) => {
                self.position = p;
                true
            },
            None => false,
        }
    }
}

/// Within the dead zone the focus stays where it is, whatever the gain, and
/// the move always fits.
pub proof fn lemma_dead_zone_holds(from: Vector3, to: Vector3, gain: int)
    requires
        !farther_than(from, to, DEAD_ZONE as int),
    ensures
        approach_fits(from, to, DEAD_ZONE as int, gain),
        approach(from, to, DEAD_ZONE as int, gain) == from,
{
}

/// One tick at a gain of at most one never overshoots: on each axis the new
/// focus lies between the old one and the target, so the gap on no axis
/// grows, and the move always fits.
pub proof fn lemma_focus_no_overshoot(from: Vector3, to: Vector3, gain: int)
    requires
        0 <= gain <= GAIN_ONE,
    ensures
        approach_fits(from, to, DEAD_ZONE as int, gain),
        ({
            let r = approach(from, to, DEAD_ZONE as int, gain);
            &&& (from.x <= to.x ==> from.x <= r.x <= to.x)
            &&& (to.x <= from.x ==> to.x <= r.x <= from.x)
            &&& (from.y <= to.y ==> from.y <= r.y <= to.y)
            &&& (to.y <= from.y ==> to.y <= r.y <= from.y)
            &&& (from.z <= to.z ==> from.z <= r.z <= to.z)
            &&& (to.z <= from.z ==> to.z <= r.z <= from.z)
        }),
{
    lemma_approach_coord_between(from.x as int, to.x as int, gain);
    lemma_approach_coord_between(from.y as int, to.y as int, gain);
    lemma_approach_coord_between(from.z as int, to.z as int, gain);
}

/// A gap of more than a third of the squared dead zone on an axis is moved
/// by at least one micro-unit at the settling gain.
proof fn lemma_axis_moves(from: int, to: int, gain: int)
    requires
        SETTLING_GAIN <= gain <= GAIN_ONE,
        (to - from) * (to - from) > 13_333_320_900,
    ensures
        from != to,
        from < to ==> from < approach_coord(from, to, gain) <= to,
        to < from ==> to <= approach_coord(from, to, gain) < from,
{
    let d = to - from;
    let m = if d >= 0 { d } else { -d };
    assert(d * d == m * m) by (nonlinear_arith)
        requires
            m == d || m == -d,
    ;
    if m <= 115_470 {
        assert(m * m <= 115_470 * 115_470) by (nonlinear_arith)
            requires
                0 <= m <= 115_470,
        ;
    }
    assert(m * gain >= 1_000_000_000) by (nonlinear_arith)
        requires
            m >= 115_471,
            gain >= 8_661,
    ;
    assert(m * gain / 1_000_000_000 >= 1) by (nonlinear_arith)
        requires
            m * gain >= 1_000_000_000,
    ;
    lemma_scale_bounded(d, gain);
}

/// One tick outside the dead zone at the settling gain closes the summed gap
/// by at least one micro-unit.
pub proof fn lemma_focus_progress(from: Vector3, to: Vector3, gain: int)
    requires
        SETTLING_GAIN <= gain <= GAIN_ONE,
        farther_than(from, to, DEAD_ZONE as int),
    ensures
        gap_l1(approach(from, to, DEAD_ZONE as int, gain), to) < gap_l1(from, to),
{
    lemma_focus_no_overshoot(from, to, gain);
    let dx = to.x - from.x;
    let dy = to.y - from.y;
    let dz = to.z - from.z;
    assert(dx * dx > 13_333_320_900 || dy * dy > 13_333_320_900 || dz * dz > 13_333_320_900) by (nonlinear_arith)
        requires
            dx * dx + dy * dy + dz * dz > 200_000 * 200_000,
    {
    }
    let r = approach(from, to, DEAD_ZONE as int, gain);
    lemma_approach_coord_between(from.x as int, to.x as int, gain);
    lemma_approach_coord_between(from.y as int, to.y as int, gain);
    lemma_approach_coord_between(from.z as int, to.z as int, gain);
    assert(axis_gap(r.x as int, to.x as int) <= axis_gap(from.x as int, to.x as int));
    assert(axis_gap(r.y as int, to.y as int) <= axis_gap(from.y as int, to.y as int));
    assert(axis_gap(r.z as int, to.z as int) <= axis_gap(from.z as int, to.z as int));
    if dx * dx > 13_333_320_900 {
        lemma_axis_moves(from.x as int, to.x as int, gain);
        assert(r.x == approach_coord(from.x as int, to.x as int, gain));
        assert(axis_gap(r.x as int, to.x as int) < axis_gap(from.x as int, to.x as int));
    } else if dy * dy > 13_333_320_900 {
        lemma_axis_moves(from.y as int, to.y as int, gain);
        assert(r.y == approach_coord(from.y as int, to.y as int, gain));
        assert(axis_gap(r.y as int, to.y as int) < axis_gap(from.y as int, to.y as int));
    } else {
        lemma_axis_moves(from.z as int, to.z as int, gain);
        assert(r.z == approach_coord(from.z as int, to.z as int, gain));
        assert(axis_gap(r.z as int, to.z as int) < axis_gap(from.z as int, to.z as int));
    }
}

/// Following a still target at a gain between the settling gain and one,
/// the focus never overshoots, and it is within the dead zone after as many
/// ticks as the summed gap between them, in micro-units.
pub proof fn lemma_focus_settles(from: Vector3, to: Vector3, gain: int, n: nat)
    requires
        SETTLING_GAIN <= gain <= GAIN_ONE,
        n >= gap_l1(from, to),
    ensures
        !farther_than(focus_after(from, to, gain, n), to, DEAD_ZONE as int),
    decreases n,
{
    if farther_than(from, to, DEAD_ZONE as int) {
        lemma_focus_progress(from, to, gain);
        let next = approach(from, to, DEAD_ZONE as int, gain);
        assert(gap_l1(next, to) >= 0);
        lemma_focus_settles(next, to, gain, (n - 1) as nat);
    } else {
        lemma_focus_stays(from, to, gain, n);
    }
}

/// Once within the dead zone, the focus stays put for any number of ticks.
proof fn lemma_focus_stays(from: Vector3, to: Vector3, gain: int, n: nat)
    requires
        !farther_than(from, to, DEAD_ZONE as int),
    ensures
        focus_after(from, to, gain, n) == from,
    decreases n,
{
    if n > 0 {
        lemma_focus_stays(from, to, gain, (n - 1) as nat);
    }
}

} // verus!
