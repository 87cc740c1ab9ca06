use scene_motion::camera::{CameraFollow, DEAD_ZONE, RIG_RADIUS};
use scene_motion::mover::{Bounds, Mover, MASS_UNIT};
use scene_motion::steering::{ArrowKeys, Orbit, Player, MOVE_STEP, ORBIT_STEP};
use scene_motion::vector::{Vector3, UNIT};
use scene_motion::world::{AccelerationPolicy, World};

fn v(x: i64, y: i64, z: i64) -> Vector3 {
    Vector3::new(x, y, z)
}

fn body(location: Vector3, velocity: Vector3) -> Mover {
    let mut m = Mover::new(location, MASS_UNIT).unwrap();
    m.velocity = velocity;
    m
}

const TEN: Bounds = Bounds { width: 10 * UNIT, height: 10 * UNIT };

#[test]
fn forces_commute_on_acceleration() {
    let forces = [v(10, -1000, 7), v(-3, 250, 0), v(1_000_000, 0, -42)];
    let mut a = Mover::new(v(0, 0, 0), 3 * MASS_UNIT).unwrap();
    for f in forces.iter() {
        a.apply_force(f);
    }
    let mut b = Mover::new(v(0, 0, 0), 3 * MASS_UNIT).unwrap();
    for f in forces.iter().rev() {
        b.apply_force(f);
    }
    assert_eq!(a.acceleration, b.acceleration);
    assert_eq!(a.acceleration, v(3 + (-1) + 333_333, -333 + 83, 2 + (-14)));
}

#[test]
fn force_is_divided_by_mass() {
    let mut m = Mover::new(v(0, 0, 0), 2 * MASS_UNIT).unwrap();
    m.apply_force(&v(10, -1001, 0));
    assert_eq!(m.acceleration, v(5, -500, 0));
    assert_eq!(m.velocity, v(0, 0, 0));
    assert_eq!(m.location, v(0, 0, 0));
}

#[test]
fn non_positive_mass_is_refused() {
    assert!(Mover::new(v(0, 0, 0), 0).is_none());
    assert!(Mover::new(v(0, 0, 0), -5).is_none());
    assert!(Mover::new(v(0, 0, 0), 1).is_some());
}

#[test]
fn rest_leaves_position_unchanged() {
    let mut m = body(v(3 * UNIT, 4 * UNIT, -7), v(0, 0, 0));
    let before = m;
    m.update(TEN);
    assert_eq!(m.location, before.location);
    assert_eq!(m, before);
}

#[test]
fn reflection_at_upper_bound() {
    let mut m = body(v(10 * UNIT + UNIT / 2, UNIT, 0), v(UNIT, 0, 0));
    m.update(TEN);
    assert_eq!(m.location.x, 10 * UNIT);
    assert_eq!(m.velocity.x, -UNIT);
}

#[test]
fn reflection_at_lower_bound() {
    let mut m = body(v(-UNIT / 2, UNIT, 0), v(-UNIT, 0, 0));
    m.update(TEN);
    assert_eq!(m.location.x, 0);
    assert_eq!(m.velocity.x, UNIT);
}

#[test]
fn reflection_on_y_and_free_z() {
    let mut m = body(v(UNIT, UNIT, 0), v(0, -2 * UNIT, -3 * UNIT));
    m.update(TEN);
    assert_eq!(m.location, v(UNIT, 0, -3 * UNIT));
    assert_eq!(m.velocity, v(0, 2 * UNIT, -3 * UNIT));
}

#[test]
fn update_adds_acceleration_first() {
    let mut m = body(v(UNIT, UNIT, 0), v(10, 20, 30));
    m.acceleration = v(1, 2, 3);
    m.update(TEN);
    assert_eq!(m.velocity, v(11, 22, 33));
    assert_eq!(m.location, v(UNIT + 11, UNIT + 22, 33));
    assert_eq!(m.acceleration, v(1, 2, 3));
}

#[test]
fn overflow_guards() {
    let m = body(v(i64::MAX - 1, 0, 0), v(5, 0, 0));
    assert!(!m.can_update());
    let m = body(v(0, 0, i64::MIN), v(0, 0, 0));
    assert!(m.can_update());
    let m = body(v(0, 0, 0), v(0, 0, i64::MIN));
    assert!(m.can_update());
    let m = body(v(0, 0, 0), v(i64::MIN, 0, 0));
    assert!(!m.can_update());
    let m = body(v(0, 0, 0), v(5, 0, 0));
    assert!(m.can_update());
    assert!(m.can_apply_force(&v(1, 1, 1)));
    assert!(m.can_apply_force(&v(i64::MAX, 0, 0)));
    let light = Mover::new(v(0, 0, 0), 1).unwrap();
    assert!(light.can_apply_force(&v(i64::MAX / 1000, 0, 0)));
    assert!(!light.can_apply_force(&v(i64::MAX / 1000 + 1, 0, 0)));
    assert!(!light.can_apply_force(&v(0, 0, i64::MIN)));
}

#[test]
fn world_accumulates_acceleration() {
    let mut w = World::new(v(10, 0, 0), v(0, -1000, 0), TEN, AccelerationPolicy::Accumulate);
    let h = w.add_mover(Mover::new(v(0, 5 * UNIT, 0), MASS_UNIT).unwrap());
    assert_eq!(h, 0);
    assert_eq!(w.step(), vec![true]);
    assert_eq!(w.step(), vec![true]);
    let m = w.movers[0];
    assert_eq!(m.acceleration, v(20, -2000, 0));
    assert_eq!(m.velocity, v(30, -3000, 0));
    assert_eq!(m.location, v(40, 5 * UNIT - 4000, 0));
}

#[test]
fn world_resets_acceleration() {
    let mut w = World::new(v(10, 0, 0), v(0, -1000, 0), TEN, AccelerationPolicy::ResetEachTick);
    w.add_mover(Mover::new(v(0, 5 * UNIT, 0), MASS_UNIT).unwrap());
    assert_eq!(w.step(), vec![true]);
    assert_eq!(w.step(), vec![true]);
    let m = w.movers[0];
    assert_eq!(m.acceleration, v(10, -1000, 0));
    assert_eq!(m.velocity, v(20, -2000, 0));
    assert_eq!(m.location, v(30, 5 * UNIT - 3000, 0));
}

#[test]
fn world_bounces_on_the_floor() {
    let mut w = World::new(v(0, 0, 0), v(0, -UNIT, 0), TEN, AccelerationPolicy::ResetEachTick);
    w.add_mover(Mover::new(v(0, UNIT / 2, 0), MASS_UNIT).unwrap());
    assert_eq!(w.step(), vec![true]);
    assert_eq!(w.movers[0].location, v(0, 0, 0));
    assert_eq!(w.movers[0].velocity, v(0, UNIT, 0));
}

#[test]
fn world_step_ticks_each_mover_on_its_own() {
    let mut w = World::new(v(0, 0, 0), v(0, 0, 0), TEN, AccelerationPolicy::Accumulate);
    w.add_mover(body(v(0, 0, 0), v(1, 0, 0)));
    w.add_mover(body(v(0, 0, i64::MAX - 1), v(0, 0, 5)));
    w.add_mover(body(v(0, 0, 0), v(0, 2, 0)));
    assert_eq!(w.step(), vec![true, false, true]);
    assert_eq!(w.movers[0].location, v(1, 0, 0));
    assert_eq!(w.movers[1].location, v(0, 0, i64::MAX - 1));
    assert_eq!(w.movers[1].velocity, v(0, 0, 5));
    assert_eq!(w.movers[2].location, v(0, 2, 0));
}

#[test]
fn world_refuses_a_mover_without_mass() {
    let mut w = World::new(v(0, 0, 0), v(0, 0, 0), TEN, AccelerationPolicy::Accumulate);
    let mut m = body(v(0, 0, 0), v(1, 0, 0));
    m.mass = 0;
    w.add_mover(m);
    assert_eq!(w.step(), vec![false]);
    assert_eq!(w.movers[0], m);
}

#[test]
fn resize_takes_last_event() {
    let mut w = World::new(v(0, 0, 0), v(0, 0, 0), TEN, AccelerationPolicy::Accumulate);
    w.resize(&vec![]);
    assert_eq!(w.bounds, TEN);
    w.resize(&vec![Bounds { width: 1, height: 2 }, Bounds { width: 800, height: 600 }]);
    assert_eq!(w.bounds, Bounds { width: 800, height: 600 });
}

#[test]
fn camera_dead_zone() {
    for elapsed in [0u64, 1, 16_667, 500_000, 10_000_000, u64::MAX] {
        let mut c = CameraFollow::new(v(0, 0, 0), v(0, 0, 0), v(0, 0, 0));
        assert!(c.update_focus(Some(v(UNIT / 10, 0, 0)), elapsed, 2_000));
        assert_eq!(c.current_focus, v(0, 0, 0));
        assert_eq!(c.desired_focus, v(UNIT / 10, 0, 0));
    }
    let mut c = CameraFollow::new(v(0, 0, 0), v(0, 0, 0), v(0, 0, 0));
    c.update_focus(Some(v(DEAD_ZONE as i64, 0, 0)), 16_667, 2_000);
    assert_eq!(c.current_focus, v(0, 0, 0));
}

#[test]
fn camera_step_value() {
    let mut c = CameraFollow::new(v(0, 0, 0), v(0, 0, 0), v(0, 0, 0));
    c.update_focus(Some(v(10 * UNIT, 0, -10 * UNIT)), 16_667, 2_000);
    assert_eq!(c.current_focus, v(333_340, 0, -333_340));
}

#[test]
fn camera_long_frame_overshoots() {
    let mut c = CameraFollow::new(v(0, 0, 0), v(0, 0, 0), v(0, 0, 0));
    assert!(c.update_focus(Some(v(10 * UNIT, 0, 0)), 1_500_000, 2_000));
    assert_eq!(c.current_focus, v(30 * UNIT, 0, 0));
}

#[test]
fn camera_move_out_of_range_is_refused() {
    let mut c = CameraFollow::new(v(0, 0, 0), v(0, 0, 0), v(0, 0, 0));
    assert!(!c.update_focus(Some(v(10 * UNIT, 0, 0)), u64::MAX, u64::MAX));
    assert_eq!(c.current_focus, v(0, 0, 0));
    assert_eq!(c.desired_focus, v(10 * UNIT, 0, 0));
    assert!(!c.follow_rig(&v(i64::MAX, 0, 0), 1_000_000, 3_000));
    assert_eq!(c.position, v(0, 0, 0));
}

#[test]
fn camera_converges_without_overshoot() {
    let mut c = CameraFollow::new(v(0, 0, 0), v(0, 0, 0), v(0, 0, 0));
    let target = v(10 * UNIT, 0, 0);
    let mut last = c.current_focus.x;
    let mut ticks = 0;
    while ticks < 1000 {
        c.update_focus(Some(target), 16_667, 2_000);
        assert!(c.current_focus.x >= last);
        assert!(c.current_focus.x <= target.x);
        last = c.current_focus.x;
        ticks += 1;
    }
    assert!(target.x - c.current_focus.x <= DEAD_ZONE as i64);
    assert!(c.current_focus.x > 9 * UNIT);
}

#[test]
fn camera_falls_back_to_reset_focus() {
    let reset = v(-2 * UNIT, 5 * UNIT / 2, 5 * UNIT);
    let mut c = CameraFollow::new(v(0, 0, 0), v(0, 0, 0), reset);
    assert!(c.update_focus(None, 100_000, 2_000));
    assert_eq!(c.desired_focus, reset);
    assert_eq!(c.current_focus, v(-400_000, 500_000, 1_000_000));
}

#[test]
fn rig_follows_beyond_radius_only() {
    let mut c = CameraFollow::new(v(0, 0, 0), v(0, 0, 0), v(0, 0, 0));
    c.follow_rig(&v(RIG_RADIUS as i64, 0, 0), 16_667, 2_000);
    assert_eq!(c.position, v(0, 0, 0));
    assert!(c.follow_rig(&v(10 * UNIT, 0, 0), 100_000, 2_000));
    assert_eq!(c.position, v(2 * UNIT, 0, 0));
    assert_eq!(c.current_focus, v(0, 0, 0));
}

#[test]
fn player_steering() {
    let mut p = Player::new(v(0, UNIT / 2, 0));
    let none = ArrowKeys { up: false, down: false, left: false, right: false };
    assert!(!p.steer(none));
    assert_eq!(p.position, v(0, UNIT / 2, 0));
    assert!(p.steer(ArrowKeys { up: true, ..none }));
    assert_eq!(p.position, v(0, UNIT / 2, -MOVE_STEP));
    assert_eq!(p.heading, 1);
    assert!(p.steer(ArrowKeys { up: true, ..none }));
    assert_eq!(p.heading, 2);
    assert!(p.steer(ArrowKeys { down: true, right: true, ..none }));
    assert_eq!(p.position, v(MOVE_STEP, UNIT / 2, -MOVE_STEP));
    assert_eq!(p.heading, 0);
    assert!(p.steer(ArrowKeys { left: true, ..none }));
    assert_eq!(p.position, v(0, UNIT / 2, -MOVE_STEP));
    assert_eq!(p.heading, 2);
    assert!(p.steer(ArrowKeys { down: true, ..none }));
    assert_eq!(p.heading, 1);
}

#[test]
fn orbit_turning() {
    let mut o = Orbit { angle: 0 };
    assert!(!o.turn(false, false));
    assert!(o.turn(true, false));
    assert_eq!(o.angle, ORBIT_STEP);
    assert!(o.turn(false, true));
    assert!(o.turn(false, true));
    assert_eq!(o.angle, -ORBIT_STEP);
    assert!(o.turn(true, true));
    assert_eq!(o.angle, -ORBIT_STEP);
    let mut edge = Orbit { angle: i64::MIN };
    assert!(edge.turn(true, false));
    assert_eq!(edge.angle, i64::MIN + ORBIT_STEP);
}

#[test]
fn player_at_the_edge_of_range() {
    let none = ArrowKeys { up: false, down: false, left: false, right: false };
    let mut p = Player::new(v(i64::MAX, 0, i64::MIN));
    assert!(p.steer(ArrowKeys { left: true, down: true, ..none }));
    assert_eq!(p.position, v(i64::MAX - MOVE_STEP, 0, i64::MIN + MOVE_STEP));
}
