//! Tests for the simulation container: its properties, the locked-state
//! machine, and the reference integrator.

use chipmunk::body::Body;
use chipmunk::engine::Engine;
use chipmunk::shape::Shape;
use chipmunk::space::{Space, SpaceError};
use chipmunk::vect::Vect;

#[test]
fn space_starts_with_engine_defaults() {
    let mut eng = Engine::new();
    let space = Space::new(&mut eng);
    assert_eq!(space.iterations(&eng), 10);
    assert_eq!(space.gravity(&eng), Vect::zero());
    assert_eq!(space.damping(&eng), 1);
    assert_eq!(space.idle_speed_threshold(&eng), 0);
    assert_eq!(space.sleep_time_threshold(&eng), i64::MAX);
    assert_eq!(space.collision_slop(&eng), 0);
    assert_eq!(space.collision_bias(&eng), 0);
    assert_eq!(space.collision_persistance(&eng), 3);
    assert_eq!(space.user_data(&eng), 0);
    assert_eq!(space.current_time_step(&eng), 0);
    assert!(!space.is_locked());
}

#[test]
fn space_properties_round_trip() {
    let mut eng = Engine::new();
    let mut space = Space::new(&mut eng);
    space.set_iterations(&mut eng, 25);
    assert_eq!(space.iterations(&eng), 25);
    space.set_gravity(&mut eng, Vect::new(0, -100));
    assert_eq!(space.gravity(&eng), Vect::new(0, -100));
    space.set_damping(&mut eng, 9);
    assert_eq!(space.damping(&eng), 9);
    space.set_idle_speed_threshold(&mut eng, 4);
    assert_eq!(space.idle_speed_threshold(&eng), 4);
    space.set_sleep_time_threshold(&mut eng, 600);
    assert_eq!(space.sleep_time_threshold(&eng), 600);
    space.set_collision_slop(&mut eng, 2);
    assert_eq!(space.collision_slop(&eng), 2);
    space.set_collision_bias(&mut eng, 7);
    assert_eq!(space.collision_bias(&eng), 7);
    space.set_collision_persistance(&mut eng, 5);
    assert_eq!(space.collision_persistance(&eng), 5);
    space.set_user_data(&mut eng, 424242);
    assert_eq!(space.user_data(&eng), 424242);
}

#[test]
fn body_properties_round_trip() {
    let mut eng = Engine::new();
    let mut body = Body::new(&mut eng, 7, 9);
    assert_eq!(body.mass(&eng), 7);
    assert_eq!(body.moment(&eng), 9);
    body.set_mass(&mut eng, 11);
    assert_eq!(body.mass(&eng), 11);
    body.set_moment(&mut eng, 13);
    assert_eq!(body.moment(&eng), 13);
    body.set_position(&mut eng, Vect::new(3, 4));
    assert_eq!(body.position(&eng), Vect::new(3, 4));
    body.set_center_of_gravity(&mut eng, Vect::new(1, 1));
    assert_eq!(body.center_of_gravity(&eng), Vect::new(1, 1));
    body.set_velocity(&mut eng, Vect::new(-2, 5));
    assert_eq!(body.velocity(&eng), Vect::new(-2, 5));
    body.set_force(&mut eng, Vect::new(10, 0));
    assert_eq!(body.force(&eng), Vect::new(10, 0));
    body.set_angle(&mut eng, 2);
    assert_eq!(body.angle(&eng), 2);
    body.set_angular_velocity(&mut eng, 3);
    assert_eq!(body.angular_velocity(&eng), 3);
    body.set_torque(&mut eng, 6);
    assert_eq!(body.torque(&eng), 6);
    body.set_user_data(&mut eng, 99);
    assert_eq!(body.user_data(&eng), 99);
    body.free(&mut eng);
}

#[test]
fn rotation_is_unit_vector_of_angle() {
    let mut eng = Engine::new();
    let mut body = Body::new(&mut eng, 1, 1);
    assert_eq!(body.rotation(&eng), Vect::new(1, 0));
    body.set_angle(&mut eng, 1);
    assert_eq!(body.rotation(&eng), Vect::new(0, 1));
    body.set_angle(&mut eng, -1);
    assert_eq!(body.rotation(&eng), Vect::new(0, -1));
    body.set_angle(&mut eng, 6);
    assert_eq!(body.rotation(&eng), Vect::new(-1, 0));
    body.free(&mut eng);
}

#[test]
fn shape_geometry_accessors() {
    let mut eng = Engine::new();
    let body = Body::new(&mut eng, 1, 1);
    let circle = Shape::circle(&mut eng, &body, 5, Vect::new(1, 2));
    assert_eq!(circle.circle_radius(&eng), 5);
    assert_eq!(circle.circle_offset(&eng), Vect::new(1, 2));
    let seg = Shape::segment(&mut eng, &body, Vect::new(1, 1), Vect::new(5, 1), 2);
    assert_eq!(seg.segment_a(&eng), Vect::new(1, 1));
    assert_eq!(seg.segment_b(&eng), Vect::new(5, 1));
    assert_eq!(seg.segment_radius(&eng), 2);
    // the normal is the clockwise perpendicular of b - a = (4, 0)
    assert_eq!(seg.segment_normal(&eng), Vect::new(0, -4));
    circle.free(&mut eng);
    seg.free(&mut eng);
    body.free(&mut eng);
}

#[test]
fn shape_material_properties_round_trip() {
    let mut eng = Engine::new();
    let body = Body::new(&mut eng, 1, 1);
    let mut s = Shape::circle(&mut eng, &body, 1, Vect::zero());
    assert_eq!(s.mass(&eng), 0);
    assert!(!s.is_sensor(&eng));
    s.set_mass(&mut eng, 4);
    assert_eq!(s.mass(&eng), 4);
    s.set_density(&mut eng, 3);
    assert_eq!(s.density(&eng), 3);
    s.set_sensor(&mut eng, true);
    assert!(s.is_sensor(&eng));
    s.set_elasticity(&mut eng, 8);
    assert_eq!(s.elasticity(&eng), 8);
    s.set_friction(&mut eng, 2);
    assert_eq!(s.friction(&eng), 2);
    s.set_surface_velocity(&mut eng, Vect::new(1, -1));
    assert_eq!(s.surface_velocity(&eng), Vect::new(1, -1));
    s.set_user_data(&mut eng, 7);
    assert_eq!(s.user_data(&eng), 7);
    s.free(&mut eng);
    body.free(&mut eng);
}

#[test]
fn poly_shapes_construct_and_release() {
    let mut eng = Engine::new();
    let body = Body::new(&mut eng, 1, 1);
    let tri = Shape::poly(
        &mut eng,
        &body,
        &[Vect::new(0, 0), Vect::new(4, 0), Vect::new(0, 4)],
        0,
    );
    let bx = Shape::poly_box(&mut eng, &body, 4, 2, 0);
    let tbx = Shape::poly_box_with_transform(&mut eng, &body, 4, 2, 0, Vect::new(10, 10), 1);
    assert_eq!(eng.shapes_created(), 3);
    tri.free(&mut eng);
    bx.free(&mut eng);
    tbx.free(&mut eng);
    assert_eq!(eng.shapes_destroyed(), 3);
    body.free(&mut eng);
}

#[test]
fn structural_mutation_is_rejected_while_locked() {
    let mut eng = Engine::new();
    let mut space = Space::new(&mut eng);
    let mut b1 = Body::new(&mut eng, 1, 1);
    let mut b2 = Body::new(&mut eng, 1, 1);
    let shape = Shape::circle(&mut eng, &b1, 1, Vect::zero());
    assert_eq!(space.add_body(&eng, &mut b1), Ok(()));
    space.begin_step(&mut eng, 1);
    assert!(space.is_locked());
    // adds are rejected, not silently applied
    assert_eq!(space.add_body(&eng, &mut b2), Err(SpaceError::Locked));
    assert_eq!(space.add_shape(&eng, &shape), Err(SpaceError::Locked));
    // removes are rejected too
    assert_eq!(space.remove_body(&mut b1), Err(SpaceError::Locked));
    assert_eq!(space.remove_shape(&shape), Err(SpaceError::Locked));
    space.finish_step();
    assert!(!space.is_locked());
    // once unlocked the same mutations are accepted
    assert_eq!(space.add_body(&eng, &mut b2), Ok(()));
    assert_eq!(space.add_shape(&eng, &shape), Ok(()));
    assert_eq!(space.remove_body(&mut b1), Ok(()));
    b1.free(&mut eng);
    shape.free(&mut eng);
    space.free(&mut eng);
}

#[test]
fn double_add_and_missing_remove_are_rejected() {
    let mut eng = Engine::new();
    let mut space = Space::new(&mut eng);
    let body = Body::new(&mut eng, 1, 1);
    let shape = Shape::circle(&mut eng, &body, 1, Vect::zero());
    assert_eq!(space.add_shape(&eng, &shape), Ok(()));
    assert_eq!(space.add_shape(&eng, &shape), Err(SpaceError::AlreadyAdded));
    assert_eq!(space.remove_shape(&shape), Ok(()));
    assert_eq!(space.remove_shape(&shape), Err(SpaceError::NotAdded));
    shape.free(&mut eng);
    body.free(&mut eng);
    space.free(&mut eng);
}

#[test]
fn zero_dt_step_is_a_noop() {
    let mut eng = Engine::new();
    let mut space = Space::new(&mut eng);
    space.set_gravity(&mut eng, Vect::new(0, -100));
    let mut body = Body::new(&mut eng, 1, 1);
    body.set_position(&mut eng, Vect::new(5, 7));
    body.set_velocity(&mut eng, Vect::new(2, 3));
    body.set_angle(&mut eng, 9);
    body.set_angular_velocity(&mut eng, 4);
    let shape = Shape::circle(&mut eng, &body, 1, Vect::zero());
    assert_eq!(space.add_body(&eng, &mut body), Ok(()));
    assert_eq!(space.add_shape(&eng, &shape), Ok(()));
    space.step(&mut eng, 0);
    assert_eq!(body.position(&eng), Vect::new(5, 7));
    assert_eq!(body.velocity(&eng), Vect::new(2, 3));
    assert_eq!(body.angle(&eng), 9);
    assert_eq!(space.current_time_step(&eng), 0);
}

#[test]
fn step_records_current_time_step() {
    let mut eng = Engine::new();
    let mut space = Space::new(&mut eng);
    space.step(&mut eng, 17);
    assert_eq!(space.current_time_step(&eng), 17);
    space.step(&mut eng, 3);
    assert_eq!(space.current_time_step(&eng), 3);
}

#[test]
fn kinematic_bodies_move_by_their_own_velocity() {
    let mut eng = Engine::new();
    let mut space = Space::new(&mut eng);
    space.set_gravity(&mut eng, Vect::new(0, -100));
    let mut body = Body::new_kinematic(&mut eng);
    body.set_velocity(&mut eng, Vect::new(2, 0));
    body.set_angular_velocity(&mut eng, 1);
    assert_eq!(space.add_body(&eng, &mut body), Ok(()));
    space.step(&mut eng, 3);
    // gravity does not touch a kinematic body
    assert_eq!(body.velocity(&eng), Vect::new(2, 0));
    assert_eq!(body.position(&eng), Vect::new(6, 0));
    assert_eq!(body.angle(&eng), 3);
}

#[test]
fn static_bodies_never_move() {
    let mut eng = Engine::new();
    let mut space = Space::new(&mut eng);
    space.set_gravity(&mut eng, Vect::new(0, -100));
    let mut body = Body::new_static(&mut eng);
    body.set_position(&mut eng, Vect::new(1, 2));
    assert_eq!(space.add_body(&eng, &mut body), Ok(()));
    space.step(&mut eng, 10);
    assert_eq!(body.position(&eng), Vect::new(1, 2));
    assert_eq!(body.velocity(&eng), Vect::zero());
}

#[test]
fn sleeping_bodies_are_excluded_from_integration() {
    let mut eng = Engine::new();
    let mut space = Space::new(&mut eng);
    space.set_gravity(&mut eng, Vect::new(0, -100));
    let mut body = Body::new(&mut eng, 1, 1);
    assert_eq!(space.add_body(&eng, &mut body), Ok(()));
    body.sleep(&mut eng);
    assert!(body.is_sleeping(&eng));
    space.step(&mut eng, 1);
    assert_eq!(body.velocity(&eng), Vect::zero());
    assert_eq!(body.position(&eng), Vect::zero());
    body.activate(&mut eng);
    assert!(!body.is_sleeping(&eng));
    space.step(&mut eng, 1);
    assert_eq!(body.velocity(&eng), Vect::new(0, -100));
}

#[test]
fn unregistered_bodies_are_not_integrated() {
    let mut eng = Engine::new();
    let mut space = Space::new(&mut eng);
    space.set_gravity(&mut eng, Vect::new(0, -100));
    let body = Body::new(&mut eng, 1, 1);
    space.step(&mut eng, 1);
    assert_eq!(body.velocity(&eng), Vect::zero());
}

#[test]
fn free_fall_under_gravity() {
    // end-to-end: a dynamic body with mass 1 and moment 1 at the origin,
    // a circle shape of radius 1 attached, gravity (0, -100), stepped 60
    // times by one time unit
    let mut eng = Engine::new();
    let mut space = Space::new(&mut eng);
    space.set_gravity(&mut eng, Vect::new(0, -100));
    let mut body = Body::new(&mut eng, 1, 1);
    let shape = Shape::circle(&mut eng, &body, 1, Vect::zero());
    assert_eq!(space.add_body(&eng, &mut body), Ok(()));
    assert_eq!(space.add_shape(&eng, &shape), Ok(()));
    let mut last_vy = body.velocity(&eng).y();
    let mut last_y = body.position(&eng).y();
    for _ in 0..60 {
        space.step(&mut eng, 1);
        let vy = body.velocity(&eng).y();
        let y = body.position(&eng).y();
        assert!(vy < last_vy, "y velocity must decrease monotonically");
        assert!(y < last_y, "y position must keep falling");
        last_vy = vy;
        last_y = y;
    }
    // the reference integrator is exact: v = -100 * 60, and the fall is the
    // sum -100 * (1 + 2 + ... + 60)
    assert_eq!(body.velocity(&eng), Vect::new(0, -6000));
    assert_eq!(body.position(&eng), Vect::new(0, -183_000));
    assert_eq!(body.position(&eng).x(), 0);
}

#[test]
fn step_integrates_only_registered_dynamic_bodies() {
    let mut eng = Engine::new();
    let mut space = Space::new(&mut eng);
    space.set_gravity(&mut eng, Vect::new(0, -10));
    let mut moving = Body::new(&mut eng, 1, 1);
    let resting = Body::new(&mut eng, 1, 1);
    assert_eq!(space.add_body(&eng, &mut moving), Ok(()));
    space.step(&mut eng, 2);
    assert_eq!(moving.velocity(&eng), Vect::new(0, -20));
    assert_eq!(moving.position(&eng), Vect::new(0, -40));
    assert_eq!(resting.velocity(&eng), Vect::zero());
    assert_eq!(resting.position(&eng), Vect::zero());
}

#[test]
fn integration_saturates_at_the_representable_range() {
    let mut eng = Engine::new();
    let mut space = Space::new(&mut eng);
    let mut body = Body::new(&mut eng, 1, 1);
    body.set_position(&mut eng, Vect::new(i64::MAX - 1, 0));
    body.set_velocity(&mut eng, Vect::new(1000, 0));
    assert_eq!(space.add_body(&eng, &mut body), Ok(()));
    space.step(&mut eng, 1);
    // the position clamps instead of wrapping around
    assert_eq!(body.position(&eng).x(), i64::MAX);
    assert_eq!(body.velocity(&eng), Vect::new(1000, 0));
}

#[test]
fn state_is_readable_during_the_locked_phase() {
    let mut eng = Engine::new();
    let mut space = Space::new(&mut eng);
    space.set_gravity(&mut eng, Vect::new(0, -5));
    let mut body = Body::new(&mut eng, 1, 1);
    assert_eq!(space.add_body(&eng, &mut body), Ok(()));
    space.begin_step(&mut eng, 2);
    // integration has happened; the state is visible while locked
    assert!(space.is_locked());
    assert_eq!(body.velocity(&eng), Vect::new(0, -10));
    assert_eq!(body.position(&eng), Vect::new(0, -20));
    assert_eq!(space.current_time_step(&eng), 2);
    space.finish_step();
}

#[test]
fn static_body_of_space_is_usable() {
    let mut eng = Engine::new();
    let space = Space::new(&mut eng);
    let sb = space.static_body(&eng);
    assert_eq!(sb.position(&eng), Vect::zero());
    assert_eq!(sb.mass(&eng), 0);
    // a shape can be attached to the built-in static body
    let shape = Shape::circle(&mut eng, &sb, 3, Vect::zero());
    assert_eq!(shape.circle_radius(&eng), 3);
    shape.free(&mut eng);
}
