//! Rigid-body handles.
//!
//! A `Body` wraps an engine body handle together with an explicit ownership
//! tag. The tag decides what destroying the wrapper does: an exclusively
//! owned handle is released exactly once, a borrowed or null handle is never
//! released, and a handle whose custody has been transferred to a space
//! stays alive in the engine until the space gives it back.

use crate::engine::body_allocated;
use crate::engine::body_freed;
use crate::engine::body_updated;
use crate::engine::engine_unchanged;
use crate::engine::BodyKind;
use crate::engine::BodyState;
use crate::engine::Engine;
use crate::vect::unit_for_turns;
use crate::vect::Vect;
use vstd::prelude::*;

verus! {

/// Who is responsible for releasing a wrapped handle.
#[derive(Clone, Copy, PartialEq, Eq, Structural, Debug)]
pub enum Ownership {
    /// The wrapper is the sole authority for releasing the handle;
    /// destroying the wrapper releases it exactly once.
    Owned,
    /// The handle belongs to someone else (a null placeholder, or the
    /// space's built-in static body); destroying the wrapper releases
    /// nothing.
    Borrowed,
    /// Custody has been transferred to a space; destroying the wrapper
    /// releases nothing until the space hands the handle back.
    Transferred,
}

/// The initial state a body constructor installs: everything at rest at the
/// origin.
pub open spec fn body_new_state(kind: BodyKind, mass: i64, moment: i64) -> BodyState {
    BodyState {
        kind: kind,
        mass: mass,
        moment: moment,
        position: Vect { x: 0, y: 0 },
        center_of_gravity: Vect { x: 0, y: 0 },
        velocity: Vect { x: 0, y: 0 },
        force: Vect { x: 0, y: 0 },
        angle: 0,
        angular_velocity: 0,
        torque: 0,
        user_data: 0,
        sleeping: false,
    }
}

/// A handle to one rigid body, with the ownership tag that gates its
/// release.
pub struct Body {
    handle: usize,
    owner: Ownership,
}

impl Body {
    /// The engine handle this wrapper points at.
    pub closed spec fn id(self) -> usize {
        self.handle
    }

    /// The ownership tag of this wrapper.
    pub closed spec fn tag(self) -> Ownership {
        self.owner
    }

    /// The wrapper points at a live body of engine `e`.
    pub open spec fn live_in(self, e: Engine) -> bool {
        e.body_live(self.id() as int)
    }

    pub(crate) fn from_parts(handle: usize, owner: Ownership) -> (b: Body)
        ensures
            b.id() == handle,
            b.tag() == owner,
    {
        Body { handle, owner }
    }

    pub(crate) fn raw_handle(&self) -> (h: usize)
        ensures
            h == self.id(),
    {
        self.handle
    }

    pub(crate) fn mark_transferred(&mut self)
        ensures
            final(self).id() == old(self).id(),
            final(self).tag() == Ownership::Transferred,
    {
        self.owner = Ownership::Transferred;
    }

    pub(crate) fn mark_owned(&mut self)
        ensures
            final(self).id() == old(self).id(),
            final(self).tag() == Ownership::Owned,
    {
        self.owner = Ownership::Owned;
    }

    /// A non-owning placeholder for callers that must hold a `Body` value
    /// without a live handle. It points at nothing; using any accessor on it
    /// violates that accessor's precondition, and destroying it releases
    /// nothing.
    pub fn null() -> (b: Body)
        ensures
            b.tag() == Ownership::Borrowed,
    {
        Body { handle: usize::MAX, owner: Ownership::Borrowed }
    }

    /// Create a dynamic body with the given mass and moment of inertia,
    /// exclusively owned by the returned wrapper.
    pub fn new(eng: &mut Engine, mass: i64, moment: i64) -> (b: Body)
        requires
            old(eng).wf(),
        ensures
            final(eng).wf(),
            b.tag() == Ownership::Owned,
            body_allocated(
                *old(eng),
                *final(eng),
                body_new_state(BodyKind::Dynamic, mass, moment),
                b.id() as int,
            ),
            b.live_in(*final(eng)),
            final(eng).body_at(b.id() as int) == body_new_state(BodyKind::Dynamic, mass, moment),
    {
        let st = BodyState {
            kind: BodyKind::Dynamic,
            mass,
            moment,
            position: Vect { x: 0, y: 0 },
            center_of_gravity: Vect { x: 0, y: 0 },
            velocity: Vect { x: 0, y: 0 },
            force: Vect { x: 0, y: 0 },
            angle: 0,
            angular_velocity: 0,
            torque: 0,
            user_data: 0,
            sleeping: false,
        };
        let h = eng.alloc_body(st);
        Body { handle: h, owner: Ownership::Owned }
    }

    /// Create a kinematic body: moved by its own velocity, not by the
    /// solver. The model gives non-dynamic bodies no meaningful mass.
    pub fn new_kinematic(eng: &mut Engine) -> (b: Body)
        requires
            old(eng).wf(),
        ensures
            final(eng).wf(),
            b.tag() == Ownership::Owned,
            body_allocated(
                *old(eng),
                *final(eng),
                body_new_state(BodyKind::Kinematic, 0, 0),
                b.id() as int,
            ),
            b.live_in(*final(eng)),
            final(eng).body_at(b.id() as int) == body_new_state(BodyKind::Kinematic, 0, 0),
    {
        let st = BodyState {
            kind: BodyKind::Kinematic,
            mass: 0,
            moment: 0,
            position: Vect { x: 0, y: 0 },
            center_of_gravity: Vect { x: 0, y: 0 },
            velocity: Vect { x: 0, y: 0 },
            force: Vect { x: 0, y: 0 },
            angle: 0,
            angular_velocity: 0,
            torque: 0,
            user_data: 0,
            sleeping: false,
        };
        let h = eng.alloc_body(st);
        Body { handle: h, owner: Ownership::Owned }
    }

    /// Create a static body: fixed geometry that never moves.
    pub fn new_static(eng: &mut Engine) -> (b: Body)
        requires
            old(eng).wf(),
        ensures
            final(eng).wf(),
            b.tag() == Ownership::Owned,
            body_allocated(
                *old(eng),
                *final(eng),
                body_new_state(BodyKind::Static, 0, 0),
                b.id() as int,
            ),
            b.live_in(*final(eng)),
            final(eng).body_at(b.id() as int) == body_new_state(BodyKind::Static, 0, 0),
    {
        let st = BodyState {
            kind: BodyKind::Static,
            mass: 0,
            moment: 0,
            position: Vect { x: 0, y: 0 },
            center_of_gravity: Vect { x: 0, y: 0 },
            velocity: Vect { x: 0, y: 0 },
            force: Vect { x: 0, y: 0 },
            angle: 0,
            angular_velocity: 0,
            torque: 0,
            user_data: 0,
            sleeping: false,
        };
        let h = eng.alloc_body(st);
        Body { handle: h, owner: Ownership::Owned }
    }

    /// Destroy the wrapper. The underlying handle is released if and only
    /// if this wrapper exclusively owns it: a null or borrowed wrapper, or
    /// one whose custody sits with a space, releases nothing.
    pub fn free(self, eng: &mut Engine)
        requires
            old(eng).wf(),
            self.tag() == Ownership::Owned ==> old(eng).body_live(self.id() as int),
        ensures
            final(eng).wf(),
            self.tag() == Ownership::Owned ==> body_freed(
                *old(eng),
                *final(eng),
                self.id() as int,
            ),
            self.tag() != Ownership::Owned ==> engine_unchanged(*old(eng), *final(eng)),
    {
        match self.owner {
            Ownership::Owned => eng.free_body_slot(self.handle),
            _ => (),
        }
    }

    /// The ownership tag, reported for inspection.
    pub fn ownership(&self) -> (o: Ownership)
        ensures
            o == self.tag(),
    {
        self.owner
    }

    /// Wake the body up.
    pub fn activate(&mut self, eng: &mut Engine)
        requires
            old(eng).wf(),
            old(self).live_in(*old(eng)),
        ensures
            final(eng).wf(),
            *final(self) == *old(self),
            body_updated(
                *old(eng),
                *final(eng),
                old(self).id() as int,
                BodyState { sleeping: false, ..old(eng).body_at(old(self).id() as int) },
            ),
    {
        let mut st = eng.body_state(self.handle);
        st.sleeping = false;
        eng.set_body_state(self.handle, st);
    }

    /// Force the body to fall asleep immediately; a sleeping body is
    /// excluded from integration until it is activated again.
    pub fn sleep(&mut self, eng: &mut Engine)
        requires
            old(eng).wf(),
            old(self).live_in(*old(eng)),
        ensures
            final(eng).wf(),
            *final(self) == *old(self),
            body_updated(
                *old(eng),
                *final(eng),
                old(self).id() as int,
                BodyState { sleeping: true, ..old(eng).body_at(old(self).id() as int) },
            ),
    {
        let mut st = eng.body_state(self.handle);
        st.sleeping = true;
        eng.set_body_state(self.handle, st);
    }

    /// Whether the body is sleeping.
    pub fn is_sleeping(&mut self, eng: &Engine) -> (r: bool)
        requires
            old(self).live_in(*eng),
        ensures
            *final(self) == *old(self),
            r == eng.body_at(old(self).id() as int).sleeping,
    {
        eng.body_state(self.handle).sleeping
    }

    /// The mass of the body.
    pub fn mass(&self, eng: &Engine) -> (m: i64)
        requires
            self.live_in(*eng),
        ensures
            m == eng.body_at(self.id() as int).mass,
    {
        eng.body_state(self.handle).mass
    }

    /// Set the mass of the body.
    pub fn set_mass(&mut self, eng: &mut Engine, mass: i64)
        requires
            old(eng).wf(),
            old(self).live_in(*old(eng)),
        ensures
            final(eng).wf(),
            *final(self) == *old(self),
            body_updated(
                *old(eng),
                *final(eng),
                old(self).id() as int,
                BodyState { mass: mass, ..old(eng).body_at(old(self).id() as int) },
            ),
    {
        let mut st = eng.body_state(self.handle);
        st.mass = mass;
        eng.set_body_state(self.handle, st);
    }

    /// The moment of inertia of the body.
    pub fn moment(&self, eng: &Engine) -> (m: i64)
        requires
            self.live_in(*eng),
        ensures
            m == eng.body_at(self.id() as int).moment,
    {
        eng.body_state(self.handle).moment
    }

    /// Set the moment of inertia of the body.
    pub fn set_moment(&mut self, eng: &mut Engine, moment: i64)
        requires
            old(eng).wf(),
            old(self).live_in(*old(eng)),
        ensures
            final(eng).wf(),
            *final(self) == *old(self),
            body_updated(
                *old(eng),
                *final(eng),
                old(self).id() as int,
                BodyState { moment: moment, ..old(eng).body_at(old(self).id() as int) },
            ),
    {
        let mut st = eng.body_state(self.handle);
        st.moment = moment;
        eng.set_body_state(self.handle, st);
    }

    /// The position of the body.
    pub fn position(&self, eng: &Engine) -> (p: Vect)
        requires
            self.live_in(*eng),
        ensures
            p == eng.body_at(self.id() as int).position,
    {
        eng.body_state(self.handle).position
    }

    /// Set the position of the body.
    pub fn set_position(&mut self, eng: &mut Engine, position: Vect)
        requires
            old(eng).wf(),
            old(self).live_in(*old(eng)),
        ensures
            final(eng).wf(),
            *final(self) == *old(self),
            body_updated(
                *old(eng),
                *final(eng),
                old(self).id() as int,
                BodyState { position: position, ..old(eng).body_at(old(self).id() as int) },
            ),
    {
        let mut st = eng.body_state(self.handle);
        st.position = position;
        eng.set_body_state(self.handle, st);
    }

    /// The offset of the center of gravity in body-local coordinates.
    pub fn center_of_gravity(&self, eng: &Engine) -> (c: Vect)
        requires
            self.live_in(*eng),
        ensures
            c == eng.body_at(self.id() as int).center_of_gravity,
    {
        eng.body_state(self.handle).center_of_gravity
    }

    /// Set the offset of the center of gravity in body-local coordinates.
    pub fn set_center_of_gravity(&mut self, eng: &mut Engine, center_of_gravity: Vect)
        requires
            old(eng).wf(),
            old(self).live_in(*old(eng)),
        ensures
            final(eng).wf(),
            *final(self) == *old(self),
            body_updated(
                *old(eng),
                *final(eng),
                old(self).id() as int,
                BodyState {
                    center_of_gravity: center_of_gravity,
                    ..old(eng).body_at(old(self).id() as int)
                },
            ),
    {
        let mut st = eng.body_state(self.handle);
        st.center_of_gravity = center_of_gravity;
        eng.set_body_state(self.handle, st);
    }

    /// The velocity of the body.
    pub fn velocity(&self, eng: &Engine) -> (v: Vect)
        requires
            self.live_in(*eng),
        ensures
            v == eng.body_at(self.id() as int).velocity,
    {
        eng.body_state(self.handle).velocity
    }

    /// Set the velocity of the body.
    pub fn set_velocity(&mut self, eng: &mut Engine, velocity: Vect)
        requires
            old(eng).wf(),
            old(self).live_in(*old(eng)),
        ensures
            final(eng).wf(),
            *final(self) == *old(self),
            body_updated(
                *old(eng),
                *final(eng),
                old(self).id() as int,
                BodyState { velocity: velocity, ..old(eng).body_at(old(self).id() as int) },
            ),
    {
        let mut st = eng.body_state(self.handle);
        st.velocity = velocity;
        eng.set_body_state(self.handle, st);
    }

    /// The force applied to the body for the next time step.
    pub fn force(&self, eng: &Engine) -> (f: Vect)
        requires
            self.live_in(*eng),
        ensures
            f == eng.body_at(self.id() as int).force,
    {
        eng.body_state(self.handle).force
    }

    /// Set the force applied to the body for the next time step.
    pub fn set_force(&mut self, eng: &mut Engine, force: Vect)
        requires
            old(eng).wf(),
            old(self).live_in(*old(eng)),
        ensures
            final(eng).wf(),
            *final(self) == *old(self),
            body_updated(
                *old(eng),
                *final(eng),
                old(self).id() as int,
                BodyState { force: force, ..old(eng).body_at(old(self).id() as int) },
            ),
    {
        let mut st = eng.body_state(self.handle);
        st.force = force;
        eng.set_body_state(self.handle, st);
    }

    /// The angle of the body, in counter-clockwise quarter turns.
    pub fn angle(&self, eng: &Engine) -> (a: i64)
        requires
            self.live_in(*eng),
        ensures
            a == eng.body_at(self.id() as int).angle,
    {
        eng.body_state(self.handle).angle
    }

    /// Set the angle of the body, in counter-clockwise quarter turns.
    pub fn set_angle(&mut self, eng: &mut Engine, angle: i64)
        requires
            old(eng).wf(),
            old(self).live_in(*old(eng)),
        ensures
            final(eng).wf(),
            *final(self) == *old(self),
            body_updated(
                *old(eng),
                *final(eng),
                old(self).id() as int,
                BodyState { angle: angle, ..old(eng).body_at(old(self).id() as int) },
            ),
    {
        let mut st = eng.body_state(self.handle);
        st.angle = angle;
        eng.set_body_state(self.handle, st);
    }

    /// The angular velocity of the body, in quarter turns per time unit.
    pub fn angular_velocity(&self, eng: &Engine) -> (w: i64)
        requires
            self.live_in(*eng),
        ensures
            w == eng.body_at(self.id() as int).angular_velocity,
    {
        eng.body_state(self.handle).angular_velocity
    }

    /// Set the angular velocity of the body.
    pub fn set_angular_velocity(&mut self, eng: &mut Engine, angular_velocity: i64)
        requires
            old(eng).wf(),
            old(self).live_in(*old(eng)),
        ensures
            final(eng).wf(),
            *final(self) == *old(self),
            body_updated(
                *old(eng),
                *final(eng),
                old(self).id() as int,
                BodyState {
                    angular_velocity: angular_velocity,
                    ..old(eng).body_at(old(self).id() as int)
                },
            ),
    {
        let mut st = eng.body_state(self.handle);
        st.angular_velocity = angular_velocity;
        eng.set_body_state(self.handle, st);
    }

    /// The torque applied to the body for the next time step.
    pub fn torque(&self, eng: &Engine) -> (t: i64)
        requires
            self.live_in(*eng),
        ensures
            t == eng.body_at(self.id() as int).torque,
    {
        eng.body_state(self.handle).torque
    }

    /// Set the torque applied to the body for the next time step.
    pub fn set_torque(&mut self, eng: &mut Engine, torque: i64)
        requires
            old(eng).wf(),
            old(self).live_in(*old(eng)),
        ensures
            final(eng).wf(),
            *final(self) == *old(self),
            body_updated(
                *old(eng),
                *final(eng),
                old(self).id() as int,
                BodyState { torque: torque, ..old(eng).body_at(old(self).id() as int) },
            ),
    {
        let mut st = eng.body_state(self.handle);
        st.torque = torque;
        eng.set_body_state(self.handle, st);
    }

    /// The rotation vector of the body: its orientation as the unit vector
    /// derived from its angle. It is not independently settable.
    pub fn rotation(&self, eng: &Engine) -> (r: Vect)
        requires
            self.live_in(*eng),
        ensures
            r@ == unit_for_turns(eng.body_at(self.id() as int).angle as int),
    {
        Vect::from_angle(eng.body_state(self.handle).angle)
    }

    /// The opaque tag assigned to the body; this layer stores it without
    /// interpreting it.
    pub fn user_data(&self, eng: &Engine) -> (d: u64)
        requires
            self.live_in(*eng),
        ensures
            d == eng.body_at(self.id() as int).user_data,
    {
        eng.body_state(self.handle).user_data
    }

    /// Set the opaque tag assigned to the body.
    pub fn set_user_data(&mut self, eng: &mut Engine, user_data: u64)
        requires
            old(eng).wf(),
            old(self).live_in(*old(eng)),
        ensures
            final(eng).wf(),
            *final(self) == *old(self),
            body_updated(
                *old(eng),
                *final(eng),
                old(self).id() as int,
                BodyState { user_data: user_data, ..old(eng).body_at(old(self).id() as int) },
            ),
    {
        let mut st = eng.body_state(self.handle);
        st.user_data = user_data;
        eng.set_body_state(self.handle, st);
    }
}

/// Law: a body created by an exclusive-owning constructor and then
/// destroyed through its wrapper is released exactly once — one create
/// call, one destroy call, and its slot ends cleared — while everything
/// else in the engine is exactly as before.
pub proof fn lemma_owned_body_released_exactly_once(
    pre: Engine,
    mid: Engine,
    post: Engine,
    st: BodyState,
    h: int,
)
    requires
        body_allocated(pre, mid, st, h),
        body_freed(mid, post, h),
    ensures
        post.created_bodies() == pre.created_bodies() + 1,
        post.destroyed_bodies() == pre.destroyed_bodies() + 1,
        post.body_slots() == pre.body_slots().push(None),
        crate::engine::shapes_unchanged(pre, post),
        crate::engine::constraints_unchanged(pre, post),
        crate::engine::spaces_unchanged(pre, post),
{
    assert(post.body_slots() =~= pre.body_slots().push(None));
}

} // verus!
