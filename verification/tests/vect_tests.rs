//! Tests for the exact vector value type.

use chipmunk::vect::Vect;

#[test]
fn new_and_accessors() {
    let mut v = Vect::new(3, -7);
    assert_eq!(v.x(), 3);
    assert_eq!(v.y(), -7);
    v.set_x(10);
    v.set_y(20);
    assert_eq!(v.x(), 10);
    assert_eq!(v.y(), 20);
}

#[test]
fn zero_is_origin() {
    let z = Vect::zero();
    assert_eq!(z.x(), 0);
    assert_eq!(z.y(), 0);
}

#[test]
fn dot_and_cross_exact_values() {
    let a = Vect::new(1, 2);
    let b = Vect::new(3, 4);
    assert_eq!(a.dot(b), 11);
    assert_eq!(a.cross(b), -2);
    assert_eq!(b.cross(a), 2);
}

#[test]
fn cross_of_vector_with_itself_is_zero() {
    for v in [
        Vect::zero(),
        Vect::new(1, 2),
        Vect::new(-5, 3),
        Vect::new(1_000_000_000, -1_000_000_000),
    ] {
        assert_eq!(v.cross(v), 0);
    }
}

#[test]
fn perp_is_orthogonal() {
    for v in [Vect::new(3, 4), Vect::new(-2, 7), Vect::zero(), Vect::new(1, 0)] {
        assert_eq!(v.perp().dot(v), 0);
        assert_eq!(v.rperp().dot(v), 0);
    }
    let v = Vect::new(3, 4);
    assert_eq!(v.perp().x(), -4);
    assert_eq!(v.perp().y(), 3);
    assert_eq!(v.rperp().x(), 4);
    assert_eq!(v.rperp().y(), -3);
}

#[test]
fn length_squared_equals_dot_with_self() {
    for v in [Vect::zero(), Vect::new(3, 4), Vect::new(-6, 8), Vect::new(1, -1)] {
        assert_eq!(v.length_squared(), v.dot(v));
    }
}

#[test]
fn length_is_integer_square_root_of_length_squared() {
    assert_eq!(Vect::zero().length(), 0);
    assert_eq!(Vect::new(3, 4).length(), 5);
    assert_eq!(Vect::new(-3, -4).length(), 5);
    assert_eq!(Vect::new(1, 1).length(), 1);
    assert_eq!(Vect::new(1, 0).length(), 1);
    assert_eq!(Vect::new(5, 12).length(), 13);
    // floor of sqrt(8) is 2
    assert_eq!(Vect::new(2, 2).length(), 2);
}

#[test]
fn from_angle_gives_the_four_unit_vectors() {
    assert_eq!(Vect::from_angle(0), Vect::new(1, 0));
    assert_eq!(Vect::from_angle(1), Vect::new(0, 1));
    assert_eq!(Vect::from_angle(2), Vect::new(-1, 0));
    assert_eq!(Vect::from_angle(3), Vect::new(0, -1));
    assert_eq!(Vect::from_angle(4), Vect::new(1, 0));
    assert_eq!(Vect::from_angle(-1), Vect::new(0, -1));
    assert_eq!(Vect::from_angle(-2), Vect::new(-1, 0));
    assert_eq!(Vect::from_angle(-4), Vect::new(1, 0));
    assert_eq!(Vect::from_angle(7), Vect::new(0, -1));
}

#[test]
fn rotate_then_unrotate_is_identity() {
    // the representable unit rotations: 0, a quarter turn, a half turn,
    // and negative turns
    let v = Vect::new(123, -456);
    for turns in [0i64, 1, 2, 3, -1, -2, 5] {
        let r = Vect::from_angle(turns);
        assert_eq!(v.rotate(r).unrotate(r), v);
        assert_eq!(v.unrotate(r).rotate(r), v);
    }
}

#[test]
fn rotate_exact_values() {
    let v = Vect::new(3, 4);
    // rotating by the quarter-turn unit vector is perp
    assert_eq!(v.rotate(Vect::new(0, 1)), v.perp());
    // rotating by (1, 0) is the identity
    assert_eq!(v.rotate(Vect::new(1, 0)), v);
    // complex multiplication scales when the rotation is not unit
    assert_eq!(v.rotate(Vect::new(2, 0)), Vect::new(6, 8));
    // unrotate inverts perp
    assert_eq!(v.unrotate(Vect::new(0, 1)), v.rperp());
}

#[test]
fn arithmetic_is_exact_at_the_coordinate_limit() {
    let l = chipmunk::vect::COORD_LIMIT;
    let v = Vect::new(l, l);
    assert_eq!(v.dot(v), 2 * l * l);
    assert_eq!(v.cross(v), 0);
    let w = Vect::new(l, -l);
    assert_eq!(v.rotate(w), Vect::new(2 * l * l, 0));
    assert_eq!(v.length_squared(), 2 * l * l);
}

#[test]
fn operators_are_componentwise() {
    let a = Vect::new(1, 2);
    let b = Vect::new(10, -20);
    assert_eq!(a + b, Vect::new(11, -18));
    assert_eq!(a - b, Vect::new(-9, 22));
    assert_eq!(-a, Vect::new(-1, -2));
    assert_eq!(a * 5, Vect::new(5, 10));
}
