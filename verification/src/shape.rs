//! Collision-shape handles.
//!
//! A `Shape` is always created against a body and — unlike a `Body` — is
//! always exclusively owned by its wrapper: destroying the wrapper releases
//! the underlying handle exactly once, whatever has happened to the body it
//! is attached to. The wrapper holds only a reference to its body, never
//! ownership of it; keeping that body alive for as long as the geometry is
//! meant to be valid is the caller's responsibility.

use crate::body::Body;
use crate::body::Ownership;
use crate::engine::body_freed;
use crate::engine::constraints_unchanged;
use crate::engine::engine_unchanged;
use crate::engine::shape_allocated;
use crate::engine::shape_freed;
use crate::engine::shape_updated;
use crate::engine::shape_with_props;
use crate::engine::spaces_unchanged;
use crate::engine::Engine;
use crate::engine::ShapeGeom;
use crate::engine::ShapeProps;
use crate::engine::ShapeState;
use crate::vect::lemma_perp_orthogonal;
use crate::vect::lemma_prod_bound;
use crate::vect::lemma_unit_for_turns_bounds;
use crate::vect::unit_for_turns;
use crate::vect::IntVect;
use crate::vect::Vect;
use crate::vect::COORD_LIMIT;
use vstd::pervasive::unreached;
use vstd::prelude::*;

verus! {

/// The material properties a fresh shape starts with.
pub open spec fn default_shape_props() -> ShapeProps {
    ShapeProps {
        mass: 0,
        density: 0,
        sensor: false,
        elasticity: 0,
        friction: 0,
        surface_velocity: Vect { x: 0, y: 0 },
        user_data: 0,
    }
}

/// The normal a segment shape from `a` to `b` is constructed with: the
/// clockwise perpendicular of `b - a`. In the exact integer coordinate
/// model the normal keeps the segment's own scale instead of being
/// normalized to unit length.
pub open spec fn seg_normal_vect(a: Vect, b: Vect) -> Vect {
    Vect { x: (b.y - a.y) as i64, y: (a.x - b.x) as i64 }
}

/// The four corners of an axis-aligned box of the given width and height
/// centered on the origin, wound counter-clockwise. Odd dimensions round
/// the half-extents down.
pub open spec fn box_verts(width: i64, height: i64) -> Seq<Vect> {
    let hw = ((width as int) / 2) as i64;
    let hh = ((height as int) / 2) as i64;
    seq![
        Vect { x: (-hw) as i64, y: (-hh) as i64 },
        Vect { x: hw, y: (-hh) as i64 },
        Vect { x: hw, y: hh },
        Vect { x: (-hw) as i64, y: hh },
    ]
}

/// Where the `i`-th corner of a centered box lands after rotating it by
/// `angle` quarter turns and translating it by `offset`.
pub open spec fn placed_box_vert(
    width: i64,
    height: i64,
    offset: Vect,
    angle: i64,
    i: int,
) -> IntVect {
    offset@.plus(box_verts(width, height)[i]@.rotate(unit_for_turns(angle as int)))
}

/// A handle to one collision shape. Shapes made by the constructors are
/// exclusively owned; only the null placeholder is non-owning.
pub struct Shape {
    handle: usize,
    owner: Ownership,
}

impl Shape {
    /// The engine handle this wrapper points at.
    pub closed spec fn id(self) -> usize {
        self.handle
    }

    /// The ownership tag of this wrapper.
    pub closed spec fn tag(self) -> Ownership {
        self.owner
    }

    /// The wrapper points at a live shape of engine `e`.
    pub open spec fn live_in(self, e: Engine) -> bool {
        e.shape_live(self.id() as int)
    }

    pub(crate) fn raw_handle(&self) -> (h: usize)
        ensures
            h == self.id(),
    {
        self.handle
    }

    /// A non-owning placeholder holding no live handle; destroying it
    /// releases nothing, and using any accessor on it violates that
    /// accessor's precondition.
    pub fn null() -> (s: Shape)
        ensures
            s.tag() == Ownership::Borrowed,
    {
        Shape { handle: usize::MAX, owner: Ownership::Borrowed }
    }

    /// Create a circle shape on `body` with the given radius, centered at
    /// `offset` in body-local coordinates.
    pub fn circle(eng: &mut Engine, body: &Body, radius: i64, offset: Vect) -> (s: Shape)
        requires
            old(eng).wf(),
            body.live_in(*old(eng)),
        ensures
            final(eng).wf(),
            s.tag() == Ownership::Owned,
            s.live_in(*final(eng)),
            shape_allocated(
                *old(eng),
                *final(eng),
                final(eng).shape_at(s.id() as int),
                s.id() as int,
            ),
            final(eng).shape_at(s.id() as int).body == body.id(),
            final(eng).shape_at(s.id() as int).geom == (ShapeGeom::Circle { radius, offset }),
            final(eng).shape_at(s.id() as int).props == default_shape_props(),
    {
        let st = ShapeState {
            body: body.raw_handle(),
            geom: ShapeGeom::Circle { radius, offset },
            props: Self::fresh_props(),
        };
        let h = eng.alloc_shape(st);
        Shape { handle: h, owner: Ownership::Owned }
    }

    /// Create a segment shape on `body` from `a` to `b` with the given
    /// beveling radius. Its normal is the clockwise perpendicular of
    /// `b - a`, kept at the segment's own scale.
    pub fn segment(eng: &mut Engine, body: &Body, a: Vect, b: Vect, radius: i64) -> (s: Shape)
        requires
            old(eng).wf(),
            body.live_in(*old(eng)),
            a.in_range(),
            b.in_range(),
        ensures
            final(eng).wf(),
            s.tag() == Ownership::Owned,
            s.live_in(*final(eng)),
            shape_allocated(
                *old(eng),
                *final(eng),
                final(eng).shape_at(s.id() as int),
                s.id() as int,
            ),
            final(eng).shape_at(s.id() as int).body == body.id(),
            final(eng).shape_at(s.id() as int).geom == (ShapeGeom::Segment {
                a,
                b,
                radius,
                normal: seg_normal_vect(a, b),
            }),
            final(eng).shape_at(s.id() as int).props == default_shape_props(),
    {
        let normal = Vect { x: b.y - a.y, y: a.x - b.x };
        let st = ShapeState {
            body: body.raw_handle(),
            geom: ShapeGeom::Segment { a, b, radius, normal },
            props: Self::fresh_props(),
        };
        let h = eng.alloc_shape(st);
        Shape { handle: h, owner: Ownership::Owned }
    }

    /// Create a polygon shape on `body` with rounded corners. The vertices
    /// must be convex with a counter-clockwise winding; as in the native
    /// engine this is a documented precondition, not validated here.
    pub fn poly(eng: &mut Engine, body: &Body, verts: &[Vect], radius: i64) -> (s: Shape)
        requires
            old(eng).wf(),
            body.live_in(*old(eng)),
        ensures
            final(eng).wf(),
            s.tag() == Ownership::Owned,
            s.live_in(*final(eng)),
            shape_allocated(
                *old(eng),
                *final(eng),
                final(eng).shape_at(s.id() as int),
                s.id() as int,
            ),
            final(eng).shape_at(s.id() as int).body == body.id(),
            final(eng).shape_at(s.id() as int).geom matches ShapeGeom::Poly {
                verts: gv,
                radius: gr,
            } && gv@ == verts@ && gr == radius,
            final(eng).shape_at(s.id() as int).props == default_shape_props(),
    {
        let mut copied: Vec<Vect> = Vec::new();
        let n = verts.len();
        let mut i: usize = 0;
        while i < n
            invariant
                n == verts@.len(),
                i <= n,
                copied@ == verts@.take(i as int),
            decreases n - i,
        {
            copied.push(verts[i]);
            proof {
                assert(copied@ =~= verts@.take(i as int + 1));
            }
            i = i + 1;
        }
        proof {
            assert(copied@ =~= verts@);
        }
        let st = ShapeState {
            body: body.raw_handle(),
            geom: ShapeGeom::Poly { verts: copied, radius },
            props: Self::fresh_props(),
        };
        let h = eng.alloc_shape(st);
        Shape { handle: h, owner: Ownership::Owned }
    }

    /// Create a box-shaped polygon on `body`, centered on the origin.
    pub fn poly_box(eng: &mut Engine, body: &Body, width: i64, height: i64, radius: i64) -> (s:
        Shape)
        requires
            old(eng).wf(),
            body.live_in(*old(eng)),
            0 <= width,
            0 <= height,
        ensures
            final(eng).wf(),
            s.tag() == Ownership::Owned,
            s.live_in(*final(eng)),
            shape_allocated(
                *old(eng),
                *final(eng),
                final(eng).shape_at(s.id() as int),
                s.id() as int,
            ),
            final(eng).shape_at(s.id() as int).body == body.id(),
            final(eng).shape_at(s.id() as int).geom matches ShapeGeom::Poly {
                verts: gv,
                radius: gr,
            } && gv@ == box_verts(width, height) && gr == radius,
            final(eng).shape_at(s.id() as int).props == default_shape_props(),
    {
        let hw: i64 = ((width as u64) / 2) as i64;
        let hh: i64 = ((height as u64) / 2) as i64;
        let mut corners: Vec<Vect> = Vec::new();
        corners.push(Vect { x: -hw, y: -hh });
        corners.push(Vect { x: hw, y: -hh });
        corners.push(Vect { x: hw, y: hh });
        corners.push(Vect { x: -hw, y: hh });
        proof {
            assert(corners@ =~= box_verts(width, height));
        }
        let st = ShapeState {
            body: body.raw_handle(),
            geom: ShapeGeom::Poly { verts: corners, radius },
            props: Self::fresh_props(),
        };
        let h = eng.alloc_shape(st);
        Shape { handle: h, owner: Ownership::Owned }
    }

    /// Create a box-shaped polygon on `body`, rotated by `angle` quarter
    /// turns and translated by `offset`: the four corner vertices of the
    /// centered box are rotated and translated before the polygon is built.
    pub fn poly_box_with_transform(
        eng: &mut Engine,
        body: &Body,
        width: i64,
        height: i64,
        radius: i64,
        offset: Vect,
        angle: i64,
    ) -> (s: Shape)
        requires
            old(eng).wf(),
            body.live_in(*old(eng)),
            0 <= width <= 2 * COORD_LIMIT,
            0 <= height <= 2 * COORD_LIMIT,
            offset.in_range(),
        ensures
            final(eng).wf(),
            s.tag() == Ownership::Owned,
            s.live_in(*final(eng)),
            shape_allocated(
                *old(eng),
                *final(eng),
                final(eng).shape_at(s.id() as int),
                s.id() as int,
            ),
            final(eng).shape_at(s.id() as int).body == body.id(),
            final(eng).shape_at(s.id() as int).geom matches ShapeGeom::Poly {
                verts: gv,
                radius: gr,
            } && gv@.len() == 4 && gr == radius && (forall|i: int|
                0 <= i < 4 ==> #[trigger] gv@[i]@ == placed_box_vert(
                    width,
                    height,
                    offset,
                    angle,
                    i,
                )),
            final(eng).shape_at(s.id() as int).props == default_shape_props(),
    {
        let hw: i64 = ((width as u64) / 2) as i64;
        let hh: i64 = ((height as u64) / 2) as i64;
        let rotation = Vect::from_angle(angle);
        let c0 = Vect { x: -hw, y: -hh };
        let c1 = Vect { x: hw, y: -hh };
        let c2 = Vect { x: hw, y: hh };
        let c3 = Vect { x: -hw, y: hh };
        proof {
            assert(c0 == box_verts(width, height)[0]);
            assert(c1 == box_verts(width, height)[1]);
            assert(c2 == box_verts(width, height)[2]);
            assert(c3 == box_verts(width, height)[3]);
            lemma_unit_for_turns_bounds(angle as int);
        }
        let r0 = c0.rotate(rotation);
        let r1 = c1.rotate(rotation);
        let r2 = c2.rotate(rotation);
        let r3 = c3.rotate(rotation);
        proof {
            lemma_prod_bound(hw as int, rotation.x as int, COORD_LIMIT as int);
            lemma_prod_bound(hw as int, rotation.y as int, COORD_LIMIT as int);
            lemma_prod_bound(hh as int, rotation.x as int, COORD_LIMIT as int);
            lemma_prod_bound(hh as int, rotation.y as int, COORD_LIMIT as int);
            lemma_prod_bound(-hw as int, rotation.x as int, COORD_LIMIT as int);
            lemma_prod_bound(-hw as int, rotation.y as int, COORD_LIMIT as int);
            lemma_prod_bound(-hh as int, rotation.x as int, COORD_LIMIT as int);
            lemma_prod_bound(-hh as int, rotation.y as int, COORD_LIMIT as int);
        }
        let mut corners: Vec<Vect> = Vec::new();
        corners.push(r0 + offset);
        corners.push(r1 + offset);
        corners.push(r2 + offset);
        corners.push(r3 + offset);
        let st = ShapeState {
            body: body.raw_handle(),
            geom: ShapeGeom::Poly { verts: corners, radius },
            props: Self::fresh_props(),
        };
        let h = eng.alloc_shape(st);
        Shape { handle: h, owner: Ownership::Owned }
    }

    fn fresh_props() -> (p: ShapeProps)
        ensures
            p == default_shape_props(),
    {
        ShapeProps {
            mass: 0,
            density: 0,
            sensor: false,
            elasticity: 0,
            friction: 0,
            surface_velocity: Vect { x: 0, y: 0 },
            user_data: 0,
        }
    }

    /// Destroy the wrapper. A shape made by any constructor is exclusively
    /// owned, so this releases the underlying handle — exactly once, and
    /// independently of whether the body it was attached to still exists.
    /// Only the null placeholder releases nothing.
    pub fn free(self, eng: &mut Engine)
        requires
            old(eng).wf(),
            self.tag() == Ownership::Owned ==> old(eng).shape_live(self.id() as int),
        ensures
            final(eng).wf(),
            self.tag() == Ownership::Owned ==> shape_freed(
                *old(eng),
                *final(eng),
                self.id() as int,
            ),
            self.tag() != Ownership::Owned ==> engine_unchanged(*old(eng), *final(eng)),
    {
        match self.owner {
            Ownership::Owned => eng.free_shape_slot(self.handle),
            _ => (),
        }
    }

    /// The radius of a circle shape. Calling this on any other shape kind
    /// violates the precondition, mirroring the native layer, which exposes
    /// no shape-kind discriminant.
    pub fn circle_radius(&self, eng: &Engine) -> (r: i64)
        requires
            self.live_in(*eng),
            eng.shape_at(self.id() as int).geom is Circle,
        ensures
            r == eng.shape_at(self.id() as int).geom->Circle_radius,
    {
        match eng.shape_geom(self.handle) {
            ShapeGeom::Circle { radius, .. } => *radius,
            _ => unreached(),
        }
    }

    /// The body-local offset of a circle shape.
    pub fn circle_offset(&self, eng: &Engine) -> (o: Vect)
        requires
            self.live_in(*eng),
            eng.shape_at(self.id() as int).geom is Circle,
        ensures
            o == eng.shape_at(self.id() as int).geom->Circle_offset,
    {
        match eng.shape_geom(self.handle) {
            ShapeGeom::Circle { offset, .. } => *offset,
            _ => unreached(),
        }
    }

    /// The first endpoint of a segment shape.
    pub fn segment_a(&self, eng: &Engine) -> (a: Vect)
        requires
            self.live_in(*eng),
            eng.shape_at(self.id() as int).geom is Segment,
        ensures
            a == eng.shape_at(self.id() as int).geom->Segment_a,
    {
        match eng.shape_geom(self.handle) {
            ShapeGeom::Segment { a, .. } => *a,
            _ => unreached(),
        }
    }

    /// The second endpoint of a segment shape.
    pub fn segment_b(&self, eng: &Engine) -> (b: Vect)
        requires
            self.live_in(*eng),
            eng.shape_at(self.id() as int).geom is Segment,
        ensures
            b == eng.shape_at(self.id() as int).geom->Segment_b,
    {
        match eng.shape_geom(self.handle) {
            ShapeGeom::Segment { b, .. } => *b,
            _ => unreached(),
        }
    }

    /// The beveling radius of a segment shape.
    pub fn segment_radius(&self, eng: &Engine) -> (r: i64)
        requires
            self.live_in(*eng),
            eng.shape_at(self.id() as int).geom is Segment,
        ensures
            r == eng.shape_at(self.id() as int).geom->Segment_radius,
    {
        match eng.shape_geom(self.handle) {
            ShapeGeom::Segment { radius, .. } => *radius,
            _ => unreached(),
        }
    }

    /// The normal of a segment shape.
    pub fn segment_normal(&self, eng: &Engine) -> (n: Vect)
        requires
            self.live_in(*eng),
            eng.shape_at(self.id() as int).geom is Segment,
        ensures
            n == eng.shape_at(self.id() as int).geom->Segment_normal,
    {
        match eng.shape_geom(self.handle) {
            ShapeGeom::Segment { normal, .. } => *normal,
            _ => unreached(),
        }
    }

    /// The mass of the shape, used when the solver derives body mass
    /// properties from its shapes.
    pub fn mass(&self, eng: &Engine) -> (m: i64)
        requires
            self.live_in(*eng),
        ensures
            m == eng.shape_at(self.id() as int).props.mass,
    {
        eng.shape_props(self.handle).mass
    }

    /// Set the mass of the shape.
    pub fn set_mass(&mut self, eng: &mut Engine, mass: i64)
        requires
            old(eng).wf(),
            old(self).live_in(*old(eng)),
        ensures
            final(eng).wf(),
            *final(self) == *old(self),
            shape_updated(
                *old(eng),
                *final(eng),
                old(self).id() as int,
                ShapeProps { mass: mass, ..old(eng).shape_at(old(self).id() as int).props },
            ),
    {
        let mut p = eng.shape_props(self.handle);
        p.mass = mass;
        eng.set_shape_props(self.handle, p);
    }

    /// The density of the shape.
    pub fn density(&self, eng: &Engine) -> (d: i64)
        requires
            self.live_in(*eng),
        ensures
            d == eng.shape_at(self.id() as int).props.density,
    {
        eng.shape_props(self.handle).density
    }

    /// Set the density of the shape.
    pub fn set_density(&mut self, eng: &mut Engine, density: i64)
        requires
            old(eng).wf(),
            old(self).live_in(*old(eng)),
        ensures
            final(eng).wf(),
            *final(self) == *old(self),
            shape_updated(
                *old(eng),
                *final(eng),
                old(self).id() as int,
                ShapeProps { density: density, ..old(eng).shape_at(old(self).id() as int).props },
            ),
    {
        let mut p = eng.shape_props(self.handle);
        p.density = density;
        eng.set_shape_props(self.handle, p);
    }

    /// Whether the shape is a sensor: it reports contacts without
    /// generating collision response.
    pub fn is_sensor(&self, eng: &Engine) -> (r: bool)
        requires
            self.live_in(*eng),
        ensures
            r == eng.shape_at(self.id() as int).props.sensor,
    {
        eng.shape_props(self.handle).sensor
    }

    /// Set whether the shape is a sensor.
    pub fn set_sensor(&mut self, eng: &mut Engine, sensor: bool)
        requires
            old(eng).wf(),
            old(self).live_in(*old(eng)),
        ensures
            final(eng).wf(),
            *final(self) == *old(self),
            shape_updated(
                *old(eng),
                *final(eng),
                old(self).id() as int,
                ShapeProps { sensor: sensor, ..old(eng).shape_at(old(self).id() as int).props },
            ),
    {
        let mut p = eng.shape_props(self.handle);
        p.sensor = sensor;
        eng.set_shape_props(self.handle, p);
    }

    /// The elasticity of the shape.
    pub fn elasticity(&self, eng: &Engine) -> (e: i64)
        requires
            self.live_in(*eng),
        ensures
            e == eng.shape_at(self.id() as int).props.elasticity,
    {
        eng.shape_props(self.handle).elasticity
    }

    /// Set the elasticity of the shape.
    pub fn set_elasticity(&mut self, eng: &mut Engine, elasticity: i64)
        requires
            old(eng).wf(),
            old(self).live_in(*old(eng)),
        ensures
            final(eng).wf(),
            *final(self) == *old(self),
            shape_updated(
                *old(eng),
                *final(eng),
                old(self).id() as int,
                ShapeProps {
                    elasticity: elasticity,
                    ..old(eng).shape_at(old(self).id() as int).props
                },
            ),
    {
        let mut p = eng.shape_props(self.handle);
        p.elasticity = elasticity;
        eng.set_shape_props(self.handle, p);
    }

    /// The friction coefficient of the shape.
    pub fn friction(&self, eng: &Engine) -> (f: i64)
        requires
            self.live_in(*eng),
        ensures
            f == eng.shape_at(self.id() as int).props.friction,
    {
        eng.shape_props(self.handle).friction
    }

    /// Set the friction coefficient of the shape.
    pub fn set_friction(&mut self, eng: &mut Engine, friction: i64)
        requires
            old(eng).wf(),
            old(self).live_in(*old(eng)),
        ensures
            final(eng).wf(),
            *final(self) == *old(self),
            shape_updated(
                *old(eng),
                *final(eng),
                old(self).id() as int,
                ShapeProps { friction: friction, ..old(eng).shape_at(old(self).id() as int).props },
            ),
    {
        let mut p = eng.shape_props(self.handle);
        p.friction = friction;
        eng.set_shape_props(self.handle, p);
    }

    /// The surface velocity of the shape, used for conveyor-like effects.
    pub fn surface_velocity(&self, eng: &Engine) -> (v: Vect)
        requires
            self.live_in(*eng),
        ensures
            v == eng.shape_at(self.id() as int).props.surface_velocity,
    {
        eng.shape_props(self.handle).surface_velocity
    }

    /// Set the surface velocity of the shape.
    pub fn set_surface_velocity(&mut self, eng: &mut Engine, surface_velocity: Vect)
        requires
            old(eng).wf(),
            old(self).live_in(*old(eng)),
        ensures
            final(eng).wf(),
            *final(self) == *old(self),
            shape_updated(
                *old(eng),
                *final(eng),
                old(self).id() as int,
                ShapeProps {
                    surface_velocity: surface_velocity,
                    ..old(eng).shape_at(old(self).id() as int).props
                },
            ),
    {
        let mut p = eng.shape_props(self.handle);
        p.surface_velocity = surface_velocity;
        eng.set_shape_props(self.handle, p);
    }

    /// The opaque tag assigned to the shape.
    pub fn user_data(&self, eng: &Engine) -> (d: u64)
        requires
            self.live_in(*eng),
        ensures
            d == eng.shape_at(self.id() as int).props.user_data,
    {
        eng.shape_props(self.handle).user_data
    }

    /// Set the opaque tag assigned to the shape.
    pub fn set_user_data(&mut self, eng: &mut Engine, user_data: u64)
        requires
            old(eng).wf(),
            old(self).live_in(*old(eng)),
        ensures
            final(eng).wf(),
            *final(self) == *old(self),
            shape_updated(
                *old(eng),
                *final(eng),
                old(self).id() as int,
                ShapeProps {
                    user_data: user_data,
                    ..old(eng).shape_at(old(self).id() as int).props
                },
            ),
    {
        let mut p = eng.shape_props(self.handle);
        p.user_data = user_data;
        eng.set_shape_props(self.handle, p);
    }
}

/// The default shape value is the non-owning null placeholder.
impl Default for Shape {
    fn default() -> (s: Shape)
        ensures
            s.tag() == Ownership::Borrowed,
    {
        Shape { handle: usize::MAX, owner: Ownership::Borrowed }
    }
}

/// Law: a shape constructed against a body and then destroyed through its
/// wrapper is released exactly once: one create call, one destroy call, and
/// its slot ends cleared.
pub proof fn lemma_shape_released_exactly_once(
    pre: Engine,
    mid: Engine,
    post: Engine,
    st: ShapeState,
    h: int,
)
    requires
        shape_allocated(pre, mid, st, h),
        shape_freed(mid, post, h),
    ensures
        post.created_shapes() == pre.created_shapes() + 1,
        post.destroyed_shapes() == pre.destroyed_shapes() + 1,
        post.shape_slots() == pre.shape_slots().push(None),
        crate::engine::bodies_unchanged(pre, post),
        constraints_unchanged(pre, post),
        spaces_unchanged(pre, post),
{
    assert(post.shape_slots() =~= pre.shape_slots().push(None));
}

/// Law: destroying a shape performs exactly one release independently of
/// the body's own lifecycle — here the body is destroyed between the
/// shape's construction and its destruction, and the shape's release still
/// happens exactly once.
pub proof fn lemma_shape_release_independent_of_body(
    pre: Engine,
    mid1: Engine,
    mid2: Engine,
    post: Engine,
    st: ShapeState,
    hs: int,
    hb: int,
)
    requires
        shape_allocated(pre, mid1, st, hs),
        body_freed(mid1, mid2, hb),
        shape_freed(mid2, post, hs),
    ensures
        post.created_shapes() == pre.created_shapes() + 1,
        post.destroyed_shapes() == pre.destroyed_shapes() + 1,
        post.shape_slots() == pre.shape_slots().push(None),
{
    assert(post.shape_slots() =~= pre.shape_slots().push(None));
}

/// Law: the normal a segment shape is constructed with is orthogonal to
/// the segment's direction.
pub proof fn lemma_segment_normal_orthogonal(a: Vect, b: Vect)
    requires
        a.in_range(),
        b.in_range(),
    ensures
        seg_normal_vect(a, b)@.dot(IntVect { x: b.x - a.x, y: b.y - a.y }) == 0,
{
    let d = IntVect { x: b.x - a.x, y: b.y - a.y };
    lemma_perp_orthogonal(d);
    assert(seg_normal_vect(a, b)@ =~= d.rperp());
}

} // verus!
