//! Tests for the ownership and finalization protocol, watched through the
//! instrumented engine's create and destroy counters.

use chipmunk::body::{Body, Ownership};
use chipmunk::constraint::Constraint;
use chipmunk::engine::Engine;
use chipmunk::shape::Shape;
use chipmunk::space::{Space, SpaceError};
use chipmunk::vect::Vect;

#[test]
fn owned_body_is_released_exactly_once() {
    let mut eng = Engine::new();
    let body = Body::new(&mut eng, 1, 1);
    assert_eq!(body.ownership(), Ownership::Owned);
    assert_eq!(eng.bodies_created(), 1);
    assert_eq!(eng.bodies_destroyed(), 0);
    body.free(&mut eng);
    assert_eq!(eng.bodies_created(), 1);
    assert_eq!(eng.bodies_destroyed(), 1);
}

#[test]
fn kinematic_and_static_constructors_own_their_handles() {
    let mut eng = Engine::new();
    let k = Body::new_kinematic(&mut eng);
    let s = Body::new_static(&mut eng);
    assert_eq!(k.ownership(), Ownership::Owned);
    assert_eq!(s.ownership(), Ownership::Owned);
    assert_eq!(eng.bodies_created(), 2);
    k.free(&mut eng);
    s.free(&mut eng);
    assert_eq!(eng.bodies_destroyed(), 2);
}

#[test]
fn null_body_never_releases() {
    let mut eng = Engine::new();
    let b = Body::null();
    assert_eq!(b.ownership(), Ownership::Borrowed);
    b.free(&mut eng);
    assert_eq!(eng.bodies_created(), 0);
    assert_eq!(eng.bodies_destroyed(), 0);
}

#[test]
fn borrowed_static_body_never_releases() {
    let mut eng = Engine::new();
    let space = Space::new(&mut eng);
    // the space's built-in static body was created by the engine
    assert_eq!(eng.bodies_created(), 1);
    let sb = space.static_body(&eng);
    assert_eq!(sb.ownership(), Ownership::Borrowed);
    sb.free(&mut eng);
    assert_eq!(eng.bodies_destroyed(), 0);
    // destroying the space releases the space and its static body
    space.free(&mut eng);
    assert_eq!(eng.bodies_destroyed(), 1);
    assert_eq!(eng.spaces_created(), 1);
    assert_eq!(eng.spaces_destroyed(), 1);
}

#[test]
fn shape_is_released_exactly_once() {
    let mut eng = Engine::new();
    let body = Body::new(&mut eng, 1, 1);
    let shape = Shape::circle(&mut eng, &body, 5, Vect::zero());
    assert_eq!(eng.shapes_created(), 1);
    assert_eq!(eng.shapes_destroyed(), 0);
    shape.free(&mut eng);
    assert_eq!(eng.shapes_created(), 1);
    assert_eq!(eng.shapes_destroyed(), 1);
    // the body's lifecycle was untouched by the shape's
    assert_eq!(eng.bodies_created(), 1);
    assert_eq!(eng.bodies_destroyed(), 0);
    body.free(&mut eng);
}

#[test]
fn shape_release_is_independent_of_body_lifecycle() {
    let mut eng = Engine::new();
    let body = Body::new(&mut eng, 1, 1);
    let shape = Shape::segment(&mut eng, &body, Vect::zero(), Vect::new(4, 0), 1);
    // destroy the body first; the shape still releases exactly once
    body.free(&mut eng);
    assert_eq!(eng.bodies_destroyed(), 1);
    shape.free(&mut eng);
    assert_eq!(eng.shapes_created(), 1);
    assert_eq!(eng.shapes_destroyed(), 1);
}

#[test]
fn null_and_default_shapes_never_release() {
    let mut eng = Engine::new();
    let a = Shape::null();
    let b = Shape::default();
    a.free(&mut eng);
    b.free(&mut eng);
    assert_eq!(eng.shapes_created(), 0);
    assert_eq!(eng.shapes_destroyed(), 0);
}

#[test]
fn constraint_is_released_exactly_once() {
    let mut eng = Engine::new();
    let a = Body::new(&mut eng, 1, 1);
    let b = Body::new(&mut eng, 1, 1);
    let c = Constraint::new(&mut eng, &a, &b);
    assert_eq!(c.ownership(), Ownership::Owned);
    assert_eq!(eng.constraints_created(), 1);
    c.free(&mut eng);
    assert_eq!(eng.constraints_destroyed(), 1);
    a.free(&mut eng);
    b.free(&mut eng);
    assert_eq!(eng.bodies_destroyed(), 2);
}

#[test]
fn custody_transfers_on_add_and_returns_on_remove() {
    let mut eng = Engine::new();
    let mut body = Body::new(&mut eng, 1, 1);
    let mut space = Space::new(&mut eng);
    assert_eq!(body.ownership(), Ownership::Owned);
    assert_eq!(space.add_body(&eng, &mut body), Ok(()));
    assert_eq!(body.ownership(), Ownership::Transferred);
    let destroyed_before = eng.bodies_destroyed();
    assert_eq!(space.remove_body(&mut body), Ok(()));
    assert_eq!(body.ownership(), Ownership::Owned);
    body.free(&mut eng);
    assert_eq!(eng.bodies_destroyed(), destroyed_before + 1);
    space.free(&mut eng);
}

#[test]
fn transferred_body_wrapper_does_not_release() {
    let mut eng = Engine::new();
    let mut body = Body::new(&mut eng, 1, 1);
    let mut space = Space::new(&mut eng);
    assert_eq!(space.add_body(&eng, &mut body), Ok(()));
    body.free(&mut eng);
    // custody sat with the space, so nothing was released
    assert_eq!(eng.bodies_destroyed(), 0);
    space.free(&mut eng);
}

#[test]
fn removing_from_the_wrong_space_is_rejected() {
    let mut eng = Engine::new();
    let mut body = Body::new(&mut eng, 1, 1);
    let mut space1 = Space::new(&mut eng);
    let mut space2 = Space::new(&mut eng);
    assert_eq!(space1.add_body(&eng, &mut body), Ok(()));
    assert_eq!(space2.remove_body(&mut body), Err(SpaceError::NotAdded));
    // custody still sits with the first space
    assert_eq!(body.ownership(), Ownership::Transferred);
    assert_eq!(space1.remove_body(&mut body), Ok(()));
    body.free(&mut eng);
    assert_eq!(eng.bodies_destroyed(), 1);
}

#[test]
fn constraint_custody_transfers_on_add() {
    let mut eng = Engine::new();
    let a = Body::new(&mut eng, 1, 1);
    let b = Body::new(&mut eng, 1, 1);
    let mut c = Constraint::new(&mut eng, &a, &b);
    let mut space = Space::new(&mut eng);
    assert_eq!(space.add_constraint(&eng, &mut c), Ok(()));
    assert_eq!(c.ownership(), Ownership::Transferred);
    assert_eq!(space.remove_constraint(&mut c), Ok(()));
    assert_eq!(c.ownership(), Ownership::Owned);
    c.free(&mut eng);
    assert_eq!(eng.constraints_destroyed(), 1);
}

#[test]
fn create_destroy_counters_tally() {
    let mut eng = Engine::new();
    let b1 = Body::new(&mut eng, 1, 1);
    let b2 = Body::new(&mut eng, 2, 2);
    let b3 = Body::new_static(&mut eng);
    assert_eq!(eng.bodies_created(), 3);
    b1.free(&mut eng);
    b2.free(&mut eng);
    assert_eq!(eng.bodies_destroyed(), 2);
    b3.free(&mut eng);
    assert_eq!(eng.bodies_destroyed(), 3);
}
