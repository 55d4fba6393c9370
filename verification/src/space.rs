//! The simulation container.
//!
//! A `Space` owns the object graph: bodies, shapes and constraints are
//! registered with it, and custody of bodies and constraints transfers to
//! the space while they are registered. The space drives time stepping; a
//! step runs through a locked phase — the two-state machine behind
//! `is_locked` — during which structural mutation (add or remove) is
//! rejected with a distinguishable error instead of corrupting the graph.
//!
//! Stepping integrates gravity and velocities for the registered bodies
//! with saturating coordinate arithmetic; collision resolution, constraint
//! solving, damping and force integration belong to the out-of-scope native
//! solver.

use crate::body::body_new_state;
use crate::body::Body;
use crate::body::Ownership;
use crate::constraint::Constraint;
use crate::engine::bodies_unchanged;
use crate::engine::constraints_unchanged;
use crate::engine::shapes_unchanged;
use crate::engine::spaces_unchanged;
use crate::engine::BodyKind;
use crate::engine::BodyState;
use crate::engine::Engine;
use crate::engine::SpaceProps;
use crate::engine::SpaceSlot;
use crate::shape::Shape;
use crate::vect::lemma_prod_bound;
use crate::vect::Vect;
use vstd::prelude::*;

verus! {

/// Why a structural mutation of a space was rejected.
#[derive(Clone, Copy, PartialEq, Eq, Structural, Debug)]
pub enum SpaceError {
    /// The space is locked (inside a step); objects cannot be added or
    /// removed until the step finishes.
    Locked,
    /// The object is already registered in this space.
    AlreadyAdded,
    /// The object is not registered in this space.
    NotAdded,
}

/// `x` clamped to the `i64` range.
pub open spec fn clamp_i64(x: int) -> i64 {
    if x > i64::MAX as int {
        i64::MAX
    } else if x < i64::MIN as int {
        i64::MIN
    } else {
        x as i64
    }
}

/// Saturating addition.
pub open spec fn sat_add_spec(a: i64, b: i64) -> i64 {
    clamp_i64(a + b)
}

/// Saturating multiplication.
pub open spec fn sat_mul_spec(a: i64, b: i64) -> i64 {
    clamp_i64(a * b)
}

/// Componentwise saturating vector sum.
pub open spec fn vect_sat_add(a: Vect, b: Vect) -> Vect {
    Vect { x: sat_add_spec(a.x, b.x), y: sat_add_spec(a.y, b.y) }
}

/// Saturating scaling of a vector.
pub open spec fn vect_sat_scale(v: Vect, k: i64) -> Vect {
    Vect { x: sat_mul_spec(v.x, k), y: sat_mul_spec(v.y, k) }
}

/// One body's state after a step of `dt`. The reference integrator:
/// a dynamic body gains `gravity * dt` of velocity; dynamic and kinematic
/// bodies then advance position by `velocity * dt` and angle by
/// `angular_velocity * dt`; static and sleeping bodies are untouched.
/// Coordinates saturate at the representable range.
pub open spec fn integrated(st: BodyState, gravity: Vect, dt: i64) -> BodyState {
    if st.kind is Static || st.sleeping {
        st
    } else {
        let v = if st.kind is Dynamic {
            vect_sat_add(st.velocity, vect_sat_scale(gravity, dt))
        } else {
            st.velocity
        };
        BodyState {
            velocity: v,
            position: vect_sat_add(st.position, vect_sat_scale(v, dt)),
            angle: sat_add_spec(st.angle, sat_mul_spec(st.angular_velocity, dt)),
            ..st
        }
    }
}

/// The body slot array after a step: every live body registered in `reg`
/// is integrated (which leaves static and sleeping bodies as they are);
/// every other slot is untouched.
pub open spec fn stepped_bodies(
    pre: Seq<Option<BodyState>>,
    reg: Seq<usize>,
    gravity: Vect,
    dt: i64,
) -> Seq<Option<BodyState>> {
    Seq::new(
        pre.len(),
        |h: int|
            if pre[h] is Some && reg.contains(h as usize) {
                Some(integrated(pre[h]->Some_0, gravity, dt))
            } else {
                pre[h]
            },
    )
}

/// The full effect of stepping space `s` by `dt` on engine state: the
/// space records `dt` as its current time step, its registered live bodies
/// are integrated under its gravity, and nothing else changes.
pub open spec fn stepped(pre: Engine, post: Engine, s: Space, dt: i64) -> bool {
    let sid = s.id() as int;
    &&& post.space_slots() == pre.space_slots().update(
        sid,
        Some(
            SpaceSlot {
                props: SpaceProps { current_time_step: dt, ..pre.space_at(sid).props },
                ..pre.space_at(sid)
            },
        ),
    )
    &&& post.created_spaces() == pre.created_spaces()
    &&& post.destroyed_spaces() == pre.destroyed_spaces()
    &&& post.body_slots() == stepped_bodies(
        pre.body_slots(),
        s.registered_bodies(),
        pre.space_at(sid).props.gravity,
        dt,
    )
    &&& post.created_bodies() == pre.created_bodies()
    &&& post.destroyed_bodies() == pre.destroyed_bodies()
    &&& shapes_unchanged(pre, post)
    &&& constraints_unchanged(pre, post)
}

/// The properties a fresh space starts with: the engine defaults. Sleeping
/// is disabled by the largest representable sleep-time threshold.
pub open spec fn default_space_props() -> SpaceProps {
    SpaceProps {
        iterations: 10,
        gravity: Vect { x: 0, y: 0 },
        damping: 1,
        idle_speed_threshold: 0,
        sleep_time_threshold: i64::MAX,
        collision_slop: 0,
        collision_bias: 0,
        collision_persistence: 3,
        user_data: 0,
        current_time_step: 0,
    }
}

fn sat_add(a: i64, b: i64) -> (r: i64)
    ensures
        r == sat_add_spec(a, b),
{
    let s: i128 = a as i128 + b as i128;
    if s > i64::MAX as i128 {
        i64::MAX
    } else if s < i64::MIN as i128 {
        i64::MIN
    } else {
        s as i64
    }
}

fn sat_mul(a: i64, b: i64) -> (r: i64)
    ensures
        r == sat_mul_spec(a, b),
{
    proof {
        lemma_prod_bound(a as int, b as int, 0x8000_0000_0000_0000);
    }
    let p: i128 = a as i128 * b as i128;
    if p > i64::MAX as i128 {
        i64::MAX
    } else if p < i64::MIN as i128 {
        i64::MIN
    } else {
        p as i64
    }
}

fn vsat_add(a: Vect, b: Vect) -> (r: Vect)
    ensures
        r == vect_sat_add(a, b),
{
    Vect { x: sat_add(a.x, b.x), y: sat_add(a.y, b.y) }
}

fn vsat_scale(v: Vect, k: i64) -> (r: Vect)
    ensures
        r == vect_sat_scale(v, k),
{
    Vect { x: sat_mul(v.x, k), y: sat_mul(v.y, k) }
}

fn integrate_body(st: BodyState, gravity: Vect, dt: i64) -> (r: BodyState)
    ensures
        r == integrated(st, gravity, dt),
{
    match st.kind {
        BodyKind::Static => st,
        _ => {
            if st.sleeping {
                st
            } else {
                let v = match st.kind {
                    BodyKind::Dynamic => vsat_add(st.velocity, vsat_scale(gravity, dt)),
                    _ => st.velocity,
                };
                let mut out = st;
                out.velocity = v;
                out.position = vsat_add(st.position, vsat_scale(v, dt));
                out.angle = sat_add(st.angle, sat_mul(st.angular_velocity, dt));
                out
            }
        },
    }
}

/// Whether `x` occurs in the handle list.
fn contains_handle(v: &Vec<usize>, x: usize) -> (r: bool)
    ensures
        r == v@.contains(x),
{
    let n = v.len();
    let mut i: usize = 0;
    while i < n
        invariant
            i <= n,
            n == v@.len(),
            forall|j: int| 0 <= j < i ==> v@[j] != x,
        decreases n - i,
    {
        if v[i] == x {
            return true;
        }
        i = i + 1;
    }
    false
}

/// The position of `x` in the handle list, if it occurs.
fn find_handle(v: &Vec<usize>, x: usize) -> (r: Option<usize>)
    ensures
        match r {
            Some(i) => i < v@.len() && v@[i as int] == x,
            None => !v@.contains(x),
        },
{
    let n = v.len();
    let mut i: usize = 0;
    while i < n
        invariant
            i <= n,
            n == v@.len(),
            forall|j: int| 0 <= j < i ==> v@[j] != x,
        decreases n - i,
    {
        if v[i] == x {
            return Some(i);
        }
        i = i + 1;
    }
    None
}

/// The simulation container: a handle to the engine-side space record, the
/// idle/stepping state machine, and the registration lists recording which
/// objects the space currently has custody of.
pub struct Space {
    handle: usize,
    stepping: bool,
    reg_bodies: Vec<usize>,
    reg_shapes: Vec<usize>,
    reg_constraints: Vec<usize>,
}

impl Space {
    /// The engine handle this wrapper points at.
    pub closed spec fn id(self) -> usize {
        self.handle
    }

    /// The space is inside a step: structural mutation is forbidden.
    pub closed spec fn locked(self) -> bool {
        self.stepping
    }

    /// Handles of the bodies registered in this space.
    pub closed spec fn registered_bodies(self) -> Seq<usize> {
        self.reg_bodies@
    }

    /// Handles of the shapes registered in this space.
    pub closed spec fn registered_shapes(self) -> Seq<usize> {
        self.reg_shapes@
    }

    /// Handles of the constraints registered in this space.
    pub closed spec fn registered_constraints(self) -> Seq<usize> {
        self.reg_constraints@
    }

    /// Each object is registered at most once.
    pub open spec fn wf(self) -> bool {
        &&& self.registered_bodies().no_duplicates()
        &&& self.registered_shapes().no_duplicates()
        &&& self.registered_constraints().no_duplicates()
    }

    /// The wrapper points at a live space of engine `e`.
    pub open spec fn live_in(self, e: Engine) -> bool {
        e.space_live(self.id() as int)
    }

    /// Create an empty simulation container with engine defaults, together
    /// with its built-in static body.
    pub fn new(eng: &mut Engine) -> (s: Space)
        requires
            old(eng).wf(),
        ensures
            final(eng).wf(),
            s.wf(),
            !s.locked(),
            s.registered_bodies() == Seq::<usize>::empty(),
            s.registered_shapes() == Seq::<usize>::empty(),
            s.registered_constraints() == Seq::<usize>::empty(),
            s.live_in(*final(eng)),
            s.id() == old(eng).space_slots().len(),
            final(eng).space_slots() == old(eng).space_slots().push(
                Some(final(eng).space_at(s.id() as int)),
            ),
            final(eng).created_spaces() == old(eng).created_spaces() + 1,
            final(eng).destroyed_spaces() == old(eng).destroyed_spaces(),
            final(eng).space_at(s.id() as int).props == default_space_props(),
            final(eng).space_at(s.id() as int).static_body == old(eng).body_slots().len(),
            final(eng).body_slots() == old(eng).body_slots().push(
                Some(body_new_state(BodyKind::Static, 0, 0)),
            ),
            final(eng).created_bodies() == old(eng).created_bodies() + 1,
            final(eng).destroyed_bodies() == old(eng).destroyed_bodies(),
            final(eng).body_at(final(eng).space_at(s.id() as int).static_body as int)
                == body_new_state(BodyKind::Static, 0, 0),
            shapes_unchanged(*old(eng), *final(eng)),
            constraints_unchanged(*old(eng), *final(eng)),
    {
        let sb = eng.alloc_body(
            BodyState {
                kind: BodyKind::Static,
                mass: 0,
                moment: 0,
                position: Vect { x: 0, y: 0 },
                center_of_gravity: Vect { x: 0, y: 0 },
                velocity: Vect { x: 0, y: 0 },
                force: Vect { x: 0, y: 0 },
                angle: 0,
                angular_velocity: 0,
                torque: 0,
                user_data: 0,
                sleeping: false,
            },
        );
        let props = SpaceProps {
            iterations: 10,
            gravity: Vect { x: 0, y: 0 },
            damping: 1,
            idle_speed_threshold: 0,
            sleep_time_threshold: i64::MAX,
            collision_slop: 0,
            collision_bias: 0,
            collision_persistence: 3,
            user_data: 0,
            current_time_step: 0,
        };
        let h = eng.alloc_space(SpaceSlot { props, static_body: sb });
        Space {
            handle: h,
            stepping: false,
            reg_bodies: Vec::new(),
            reg_shapes: Vec::new(),
            reg_constraints: Vec::new(),
        }
    }

    /// Number of iterations the impulse solver is asked to use.
    pub fn iterations(&self, eng: &Engine) -> (n: i32)
        requires
            self.live_in(*eng),
        ensures
            n == eng.space_at(self.id() as int).props.iterations,
    {
        eng.space_slot(self.handle).props.iterations
    }

    pub fn set_iterations(&mut self, eng: &mut Engine, iterations: i32)
        requires
            old(eng).wf(),
            old(self).live_in(*old(eng)),
        ensures
            final(eng).wf(),
            *final(self) == *old(self),
            crate::engine::space_updated(
                *old(eng),
                *final(eng),
                old(self).id() as int,
                SpaceProps {
                    iterations: iterations,
                    ..old(eng).space_at(old(self).id() as int).props
                },
            ),
    {
        let mut p = eng.space_slot(self.handle).props;
        p.iterations = iterations;
        eng.set_space_props(self.handle, p);
    }

    /// Gravity applied to dynamic bodies when integrating velocity.
    pub fn gravity(&self, eng: &Engine) -> (g: Vect)
        requires
            self.live_in(*eng),
        ensures
            g == eng.space_at(self.id() as int).props.gravity,
    {
        eng.space_slot(self.handle).props.gravity
    }

    pub fn set_gravity(&mut self, eng: &mut Engine, gravity: Vect)
        requires
            old(eng).wf(),
            old(self).live_in(*old(eng)),
        ensures
            final(eng).wf(),
            *final(self) == *old(self),
            crate::engine::space_updated(
                *old(eng),
                *final(eng),
                old(self).id() as int,
                SpaceProps { gravity: gravity, ..old(eng).space_at(old(self).id() as int).props },
            ),
    {
        let mut p = eng.space_slot(self.handle).props;
        p.gravity = gravity;
        eng.set_space_props(self.handle, p);
    }

    /// Fraction of velocity a body retains per time unit; the engine
    /// default of one means no damping. The reference integrator leaves
    /// damping to the out-of-scope solver and stores the value.
    pub fn damping(&self, eng: &Engine) -> (d: i64)
        requires
            self.live_in(*eng),
        ensures
            d == eng.space_at(self.id() as int).props.damping,
    {
        eng.space_slot(self.handle).props.damping
    }

    pub fn set_damping(&mut self, eng: &mut Engine, damping: i64)
        requires
            old(eng).wf(),
            old(self).live_in(*old(eng)),
        ensures
            final(eng).wf(),
            *final(self) == *old(self),
            crate::engine::space_updated(
                *old(eng),
                *final(eng),
                old(self).id() as int,
                SpaceProps { damping: damping, ..old(eng).space_at(old(self).id() as int).props },
            ),
    {
        let mut p = eng.space_slot(self.handle).props;
        p.damping = damping;
        eng.set_space_props(self.handle, p);
    }

    /// Speed threshold under which a body counts as idle.
    pub fn idle_speed_threshold(&self, eng: &Engine) -> (t: i64)
        requires
            self.live_in(*eng),
        ensures
            t == eng.space_at(self.id() as int).props.idle_speed_threshold,
    {
        eng.space_slot(self.handle).props.idle_speed_threshold
    }

    pub fn set_idle_speed_threshold(&mut self, eng: &mut Engine, idle_speed_threshold: i64)
        requires
            old(eng).wf(),
            old(self).live_in(*old(eng)),
        ensures
            final(eng).wf(),
            *final(self) == *old(self),
            crate::engine::space_updated(
                *old(eng),
                *final(eng),
                old(self).id() as int,
                SpaceProps {
                    idle_speed_threshold: idle_speed_threshold,
                    ..old(eng).space_at(old(self).id() as int).props
                },
            ),
    {
        let mut p = eng.space_slot(self.handle).props;
        p.idle_speed_threshold = idle_speed_threshold;
        eng.set_space_props(self.handle, p);
    }

    /// Time a group of bodies must stay idle to fall asleep; the largest
    /// representable value (the default) disables sleeping.
    pub fn sleep_time_threshold(&self, eng: &Engine) -> (t: i64)
        requires
            self.live_in(*eng),
        ensures
            t == eng.space_at(self.id() as int).props.sleep_time_threshold,
    {
        eng.space_slot(self.handle).props.sleep_time_threshold
    }

    pub fn set_sleep_time_threshold(&mut self, eng: &mut Engine, sleep_time_threshold: i64)
        requires
            old(eng).wf(),
            old(self).live_in(*old(eng)),
        ensures
            final(eng).wf(),
            *final(self) == *old(self),
            crate::engine::space_updated(
                *old(eng),
                *final(eng),
                old(self).id() as int,
                SpaceProps {
                    sleep_time_threshold: sleep_time_threshold,
                    ..old(eng).space_at(old(self).id() as int).props
                },
            ),
    {
        let mut p = eng.space_slot(self.handle).props;
        p.sleep_time_threshold = sleep_time_threshold;
        eng.set_space_props(self.handle, p);
    }

    /// Amount of interpenetration tolerated between colliding shapes.
    pub fn collision_slop(&self, eng: &Engine) -> (t: i64)
        requires
            self.live_in(*eng),
        ensures
            t == eng.space_at(self.id() as int).props.collision_slop,
    {
        eng.space_slot(self.handle).props.collision_slop
    }

    pub fn set_collision_slop(&mut self, eng: &mut Engine, collision_slop: i64)
        requires
            old(eng).wf(),
            old(self).live_in(*old(eng)),
        ensures
            final(eng).wf(),
            *final(self) == *old(self),
            crate::engine::space_updated(
                *old(eng),
                *final(eng),
                old(self).id() as int,
                SpaceProps {
                    collision_slop: collision_slop,
                    ..old(eng).space_at(old(self).id() as int).props
                },
            ),
    {
        let mut p = eng.space_slot(self.handle).props;
        p.collision_slop = collision_slop;
        eng.set_space_props(self.handle, p);
    }

    /// Fraction of penetration error corrected per time unit.
    pub fn collision_bias(&self, eng: &Engine) -> (t: i64)
        requires
            self.live_in(*eng),
        ensures
            t == eng.space_at(self.id() as int).props.collision_bias,
    {
        eng.space_slot(self.handle).props.collision_bias
    }

    pub fn set_collision_bias(&mut self, eng: &mut Engine, collision_bias: i64)
        requires
            old(eng).wf(),
            old(self).live_in(*old(eng)),
        ensures
            final(eng).wf(),
            *final(self) == *old(self),
            crate::engine::space_updated(
                *old(eng),
                *final(eng),
                old(self).id() as int,
                SpaceProps {
                    collision_bias: collision_bias,
                    ..old(eng).space_at(old(self).id() as int).props
                },
            ),
    {
        let mut p = eng.space_slot(self.handle).props;
        p.collision_bias = collision_bias;
        eng.set_space_props(self.handle, p);
    }

    /// Number of frames contact information persists.
    pub fn collision_persistance(&self, eng: &Engine) -> (n: u32)
        requires
            self.live_in(*eng),
        ensures
            n == eng.space_at(self.id() as int).props.collision_persistence,
    {
        eng.space_slot(self.handle).props.collision_persistence
    }

    pub fn set_collision_persistance(&mut self, eng: &mut Engine, collision_persistance: u32)
        requires
            old(eng).wf(),
            old(self).live_in(*old(eng)),
        ensures
            final(eng).wf(),
            *final(self) == *old(self),
            crate::engine::space_updated(
                *old(eng),
                *final(eng),
                old(self).id() as int,
                SpaceProps {
                    collision_persistence: collision_persistance,
                    ..old(eng).space_at(old(self).id() as int).props
                },
            ),
    {
        let mut p = eng.space_slot(self.handle).props;
        p.collision_persistence = collision_persistance;
        eng.set_space_props(self.handle, p);
    }

    /// The opaque tag assigned to the space.
    pub fn user_data(&self, eng: &Engine) -> (d: u64)
        requires
            self.live_in(*eng),
        ensures
            d == eng.space_at(self.id() as int).props.user_data,
    {
        eng.space_slot(self.handle).props.user_data
    }

    pub fn set_user_data(&mut self, eng: &mut Engine, user_data: u64)
        requires
            old(eng).wf(),
            old(self).live_in(*old(eng)),
        ensures
            final(eng).wf(),
            *final(self) == *old(self),
            crate::engine::space_updated(
                *old(eng),
                *final(eng),
                old(self).id() as int,
                SpaceProps {
                    user_data: user_data,
                    ..old(eng).space_at(old(self).id() as int).props
                },
            ),
    {
        let mut p = eng.space_slot(self.handle).props;
        p.user_data = user_data;
        eng.set_space_props(self.handle, p);
    }

    /// A non-owning view of the space's built-in static body, a convenience
    /// anchor for permanently fixed geometry. Destroying the returned
    /// wrapper never releases the body.
    pub fn static_body(&self, eng: &Engine) -> (b: Body)
        requires
            self.live_in(*eng),
        ensures
            b.tag() == Ownership::Borrowed,
            b.id() == eng.space_at(self.id() as int).static_body,
    {
        Body::from_parts(eng.space_slot(self.handle).static_body, Ownership::Borrowed)
    }

    /// The time step most recently passed to `step`.
    pub fn current_time_step(&self, eng: &Engine) -> (dt: i64)
        requires
            self.live_in(*eng),
        ensures
            dt == eng.space_at(self.id() as int).props.current_time_step,
    {
        eng.space_slot(self.handle).props.current_time_step
    }

    /// True exactly while the space is inside a step; objects cannot be
    /// added or removed then.
    pub fn is_locked(&self) -> (r: bool)
        ensures
            r == self.locked(),
    {
        self.stepping
    }

    /// Register a body, transferring custody of it to the space. Rejected
    /// with `Locked` while the space is stepping and with `AlreadyAdded` if
    /// the body is already registered; a rejected call changes nothing.
    pub fn add_body(&mut self, eng: &Engine, body: &mut Body) -> (r: Result<(), SpaceError>)
        requires
            old(self).wf(),
            old(body).tag() == Ownership::Owned,
            old(body).live_in(*eng),
        ensures
            final(self).wf(),
            final(self).id() == old(self).id(),
            final(self).locked() == old(self).locked(),
            final(self).registered_shapes() == old(self).registered_shapes(),
            final(self).registered_constraints() == old(self).registered_constraints(),
            final(body).id() == old(body).id(),
            old(self).locked() ==> r == Err::<(), SpaceError>(SpaceError::Locked) && *final(self)
                == *old(self) && *final(body) == *old(body),
            !old(self).locked() && old(self).registered_bodies().contains(old(body).id()) ==> r
                == Err::<(), SpaceError>(SpaceError::AlreadyAdded) && *final(self) == *old(self)
                && *final(body) == *old(body),
            !old(self).locked() && !old(self).registered_bodies().contains(old(body).id()) ==> r
                == Ok::<(), SpaceError>(()) && final(self).registered_bodies() == old(self).registered_bodies().push(old(body).id()) && final(body).tag()
                == Ownership::Transferred,
    {
        if self.stepping {
            return Err(SpaceError::Locked);
        }
        let h = body.raw_handle();
        if contains_handle(&self.reg_bodies, h) {
            return Err(SpaceError::AlreadyAdded);
        }
        self.reg_bodies.push(h);
        proof {
            lemma_no_dup_push(old(self).reg_bodies@, h);
        }
        body.mark_transferred();
        Ok(())
    }

    /// Unregister a body, handing custody back to the caller's wrapper.
    /// Rejected with `Locked` while the space is stepping and with
    /// `NotAdded` if the body is not registered; a rejected call changes
    /// nothing.
    pub fn remove_body(&mut self, body: &mut Body) -> (r: Result<(), SpaceError>)
        requires
            old(self).wf(),
            old(body).tag() == Ownership::Transferred,
        ensures
            final(self).wf(),
            final(self).id() == old(self).id(),
            final(self).locked() == old(self).locked(),
            final(self).registered_shapes() == old(self).registered_shapes(),
            final(self).registered_constraints() == old(self).registered_constraints(),
            final(body).id() == old(body).id(),
            old(self).locked() ==> r == Err::<(), SpaceError>(SpaceError::Locked) && *final(self)
                == *old(self) && *final(body) == *old(body),
            !old(self).locked() && !old(self).registered_bodies().contains(old(body).id()) ==> r
                == Err::<(), SpaceError>(SpaceError::NotAdded) && *final(self) == *old(self)
                && *final(body) == *old(body),
            !old(self).locked() && old(self).registered_bodies().contains(old(body).id()) ==> r
                == Ok::<(), SpaceError>(()) && (exists|k: int|
                0 <= k < old(self).registered_bodies().len() && old(self).registered_bodies()[k]
                    == old(body).id() && final(self).registered_bodies() == old(self).registered_bodies().remove(k)) && !final(self).registered_bodies().contains(
                old(body).id(),
            ) && final(body).tag() == Ownership::Owned,
    {
        if self.stepping {
            return Err(SpaceError::Locked);
        }
        let h = body.raw_handle();
        match find_handle(&self.reg_bodies, h) {
            None => Err(SpaceError::NotAdded),
            Some(i) => {
                self.reg_bodies.remove(i);
                proof {
                    lemma_no_dup_remove(old(self).reg_bodies@, i as int);
                }
                body.mark_owned();
                Ok(())
            },
        }
    }

    /// Register a shape. The shape wrapper keeps exclusive ownership of its
    /// handle — registration only places the shape in the simulation graph.
    /// Rejected with `Locked` while the space is stepping and with
    /// `AlreadyAdded` if the shape is already registered.
    pub fn add_shape(&mut self, eng: &Engine, shape: &Shape) -> (r: Result<(), SpaceError>)
        requires
            old(self).wf(),
            shape.live_in(*eng),
        ensures
            final(self).wf(),
            final(self).id() == old(self).id(),
            final(self).locked() == old(self).locked(),
            final(self).registered_bodies() == old(self).registered_bodies(),
            final(self).registered_constraints() == old(self).registered_constraints(),
            old(self).locked() ==> r == Err::<(), SpaceError>(SpaceError::Locked) && *final(self)
                == *old(self),
            !old(self).locked() && old(self).registered_shapes().contains(shape.id()) ==> r
                == Err::<(), SpaceError>(SpaceError::AlreadyAdded) && *final(self) == *old(self),
            !old(self).locked() && !old(self).registered_shapes().contains(shape.id()) ==> r
                == Ok::<(), SpaceError>(()) && final(self).registered_shapes() == old(self).registered_shapes().push(shape.id()),
    {
        if self.stepping {
            return Err(SpaceError::Locked);
        }
        let h = shape.raw_handle();
        if contains_handle(&self.reg_shapes, h) {
            return Err(SpaceError::AlreadyAdded);
        }
        self.reg_shapes.push(h);
        proof {
            lemma_no_dup_push(old(self).reg_shapes@, h);
        }
        Ok(())
    }

    /// Unregister a shape. Rejected with `Locked` while the space is
    /// stepping and with `NotAdded` if the shape is not registered.
    pub fn remove_shape(&mut self, shape: &Shape) -> (r: Result<(), SpaceError>)
        requires
            old(self).wf(),
        ensures
            final(self).wf(),
            final(self).id() == old(self).id(),
            final(self).locked() == old(self).locked(),
            final(self).registered_bodies() == old(self).registered_bodies(),
            final(self).registered_constraints() == old(self).registered_constraints(),
            old(self).locked() ==> r == Err::<(), SpaceError>(SpaceError::Locked) && *final(self)
                == *old(self),
            !old(self).locked() && !old(self).registered_shapes().contains(shape.id()) ==> r
                == Err::<(), SpaceError>(SpaceError::NotAdded) && *final(self) == *old(self),
            !old(self).locked() && old(self).registered_shapes().contains(shape.id()) ==> r
                == Ok::<(), SpaceError>(()) && (exists|k: int|
                0 <= k < old(self).registered_shapes().len() && old(self).registered_shapes()[k]
                    == shape.id() && final(self).registered_shapes() == old(self).registered_shapes().remove(k)) && !final(self).registered_shapes().contains(
                shape.id(),
            ),
    {
        if self.stepping {
            return Err(SpaceError::Locked);
        }
        let h = shape.raw_handle();
        match find_handle(&self.reg_shapes, h) {
            None => Err(SpaceError::NotAdded),
            Some(i) => {
                self.reg_shapes.remove(i);
                proof {
                    lemma_no_dup_remove(old(self).reg_shapes@, i as int);
                }
                Ok(())
            },
        }
    }

    /// Register a constraint, transferring custody of it to the space.
    /// Rejected with `Locked` while the space is stepping and with
    /// `AlreadyAdded` if the constraint is already registered.
    pub fn add_constraint(&mut self, eng: &Engine, constraint: &mut Constraint) -> (r: Result<
        (),
        SpaceError,
    >)
        requires
            old(self).wf(),
            old(constraint).tag() == Ownership::Owned,
            old(constraint).live_in(*eng),
        ensures
            final(self).wf(),
            final(self).id() == old(self).id(),
            final(self).locked() == old(self).locked(),
            final(self).registered_bodies() == old(self).registered_bodies(),
            final(self).registered_shapes() == old(self).registered_shapes(),
            final(constraint).id() == old(constraint).id(),
            old(self).locked() ==> r == Err::<(), SpaceError>(SpaceError::Locked) && *final(self)
                == *old(self) && *final(constraint) == *old(constraint),
            !old(self).locked() && old(self).registered_constraints().contains(old(constraint).id())
                ==> r == Err::<(), SpaceError>(SpaceError::AlreadyAdded) && *final(self) == *old(self) && *final(constraint) == *old(constraint),
            !old(self).locked() && !old(self).registered_constraints().contains(
                old(constraint).id(),
            ) ==> r == Ok::<(), SpaceError>(()) && final(self).registered_constraints() == old(self).registered_constraints().push(old(constraint).id()) && final(constraint).tag()
                == Ownership::Transferred,
    {
        if self.stepping {
            return Err(SpaceError::Locked);
        }
        let h = constraint.raw_handle();
        if contains_handle(&self.reg_constraints, h) {
            return Err(SpaceError::AlreadyAdded);
        }
        self.reg_constraints.push(h);
        proof {
            lemma_no_dup_push(old(self).reg_constraints@, h);
        }
        constraint.mark_transferred();
        Ok(())
    }

    /// Unregister a constraint, handing custody back to the caller's
    /// wrapper. Rejected with `Locked` while the space is stepping and with
    /// `NotAdded` if the constraint is not registered.
    pub fn remove_constraint(&mut self, constraint: &mut Constraint) -> (r: Result<
        (),
        SpaceError,
    >)
        requires
            old(self).wf(),
            old(constraint).tag() == Ownership::Transferred,
        ensures
            final(self).wf(),
            final(self).id() == old(self).id(),
            final(self).locked() == old(self).locked(),
            final(self).registered_bodies() == old(self).registered_bodies(),
            final(self).registered_shapes() == old(self).registered_shapes(),
            final(constraint).id() == old(constraint).id(),
            old(self).locked() ==> r == Err::<(), SpaceError>(SpaceError::Locked) && *final(self)
                == *old(self) && *final(constraint) == *old(constraint),
            !old(self).locked() && !old(self).registered_constraints().contains(
                old(constraint).id(),
            ) ==> r == Err::<(), SpaceError>(SpaceError::NotAdded) && *final(self) == *old(self)
                && *final(constraint) == *old(constraint),
            !old(self).locked() && old(self).registered_constraints().contains(old(constraint).id())
                ==> r == Ok::<(), SpaceError>(()) && (exists|k: int|
                0 <= k < old(self).registered_constraints().len() && old(self).registered_constraints()[k] == old(constraint).id() && final(self).registered_constraints() == old(self).registered_constraints().remove(k)) && !final(self).registered_constraints().contains(old(constraint).id()) && final(constraint).tag()
                == Ownership::Owned,
    {
        if self.stepping {
            return Err(SpaceError::Locked);
        }
        let h = constraint.raw_handle();
        match find_handle(&self.reg_constraints, h) {
            None => Err(SpaceError::NotAdded),
            Some(i) => {
                self.reg_constraints.remove(i);
                proof {
                    lemma_no_dup_remove(old(self).reg_constraints@, i as int);
                }
                constraint.mark_owned();
                Ok(())
            },
        }
    }

    /// Enter the locked phase of a step and integrate the registered
    /// bodies: the first half of `step`, separated out so a host that
    /// interleaves its own work with the step observes `is_locked`.
    pub fn begin_step(&mut self, eng: &mut Engine, dt: i64)
        requires
            old(self).wf(),
            old(eng).wf(),
            old(self).live_in(*old(eng)),
            !old(self).locked(),
        ensures
            final(self).wf(),
            final(eng).wf(),
            final(self).id() == old(self).id(),
            final(self).locked(),
            final(self).registered_bodies() == old(self).registered_bodies(),
            final(self).registered_shapes() == old(self).registered_shapes(),
            final(self).registered_constraints() == old(self).registered_constraints(),
            stepped(*old(eng), *final(eng), *old(self), dt),
    {
        let sid = self.handle;
        let slot = eng.space_slot(sid);
        let gravity = slot.props.gravity;
        let mut p = slot.props;
        p.current_time_step = dt;
        eng.set_space_props(sid, p);
        self.stepping = true;
        let ghost mid = *eng;
        let cap = eng.body_slot_count();
        let n = self.reg_bodies.len();
        let mut i: usize = 0;
        while i < n
            invariant
                eng.wf(),
                n == self.reg_bodies@.len(),
                i <= n,
                self.reg_bodies@.no_duplicates(),
                mid.body_slots().len() == cap as int,
                eng.body_slots().len() == mid.body_slots().len(),
                eng.created_bodies() == mid.created_bodies(),
                eng.destroyed_bodies() == mid.destroyed_bodies(),
                shapes_unchanged(mid, *eng),
                constraints_unchanged(mid, *eng),
                spaces_unchanged(mid, *eng),
                forall|h: int|
                    0 <= h < mid.body_slots().len() ==> #[trigger] eng.body_slots()[h] == (
                    if mid.body_slots()[h] is Some && self.reg_bodies@.take(i as int).contains(
                        h as usize,
                    ) {
                        Some(integrated(mid.body_slots()[h]->Some_0, gravity, dt))
                    } else {
                        mid.body_slots()[h]
                    }),
            decreases n - i,
        {
            let h = self.reg_bodies[i];
            proof {
                if self.reg_bodies@.take(i as int).contains(h) {
                    let j = choose|j: int|
                        0 <= j < i && self.reg_bodies@.take(i as int)[j] == h;
                    assert(self.reg_bodies@[j] == self.reg_bodies@[i as int]);
                    assert(false);
                }
            }
            if eng.is_body_live(h) {
                let st = eng.body_state(h);
                let nst = integrate_body(st, gravity, dt);
                eng.set_body_state(h, nst);
            }
            proof {
                assert(self.reg_bodies@.take(i as int + 1) =~= self.reg_bodies@.take(
                    i as int,
                ).push(self.reg_bodies@[i as int]));
                assert forall|x: usize|
                    self.reg_bodies@.take(i as int + 1).contains(x) <==> (self.reg_bodies@.take(
                        i as int,
                    ).contains(x) || x == self.reg_bodies@[i as int]) by {
                    let t0 = self.reg_bodies@.take(i as int);
                    let t1 = self.reg_bodies@.take(i as int + 1);
                    if t1.contains(x) {
                        let k = choose|k: int| 0 <= k < t1.len() && t1[k] == x;
                        if k < i {
                            assert(t0[k] == x);
                        }
                    }
                    if t0.contains(x) {
                        let k = choose|k: int| 0 <= k < t0.len() && t0[k] == x;
                        assert(t1[k] == x);
                    }
                    if x == self.reg_bodies@[i as int] {
                        assert(t1[i as int] == x);
                    }
                }
            }
            i = i + 1;
        }
        proof {
            assert(self.reg_bodies@.take(n as int) =~= self.reg_bodies@);
            assert(eng.body_slots() =~= stepped_bodies(
                mid.body_slots(),
                self.reg_bodies@,
                gravity,
                dt,
            ));
        }
    }

    /// Leave the locked phase of a step: the second half of `step`.
    pub fn finish_step(&mut self)
        requires
            old(self).wf(),
            old(self).locked(),
        ensures
            final(self).wf(),
            final(self).id() == old(self).id(),
            !final(self).locked(),
            final(self).registered_bodies() == old(self).registered_bodies(),
            final(self).registered_shapes() == old(self).registered_shapes(),
            final(self).registered_constraints() == old(self).registered_constraints(),
    {
        self.stepping = false;
    }

    /// Step the space forward in time by `dt`: record `dt` as the current
    /// time step and integrate the registered bodies under the space's
    /// gravity, with the space locked for the duration of the step.
    pub fn step(&mut self, eng: &mut Engine, dt: i64)
        requires
            old(self).wf(),
            old(eng).wf(),
            old(self).live_in(*old(eng)),
            !old(self).locked(),
        ensures
            final(self).wf(),
            final(eng).wf(),
            final(self).id() == old(self).id(),
            !final(self).locked(),
            final(self).registered_bodies() == old(self).registered_bodies(),
            final(self).registered_shapes() == old(self).registered_shapes(),
            final(self).registered_constraints() == old(self).registered_constraints(),
            stepped(*old(eng), *final(eng), *old(self), dt),
    {
        self.begin_step(eng, dt);
        self.finish_step();
    }

    /// Destroy the space, releasing the native space record and its
    /// built-in static body. As in the wrapped engine, objects still
    /// registered are not released: remove them and destroy them through
    /// their own wrappers first, or their handles stay allocated.
    pub fn free(self, eng: &mut Engine)
        requires
            old(eng).wf(),
            self.live_in(*old(eng)),
        ensures
            final(eng).wf(),
            final(eng).space_slots() == old(eng).space_slots().update(self.id() as int, None),
            final(eng).created_spaces() == old(eng).created_spaces(),
            final(eng).destroyed_spaces() == old(eng).destroyed_spaces() + 1,
            shapes_unchanged(*old(eng), *final(eng)),
            constraints_unchanged(*old(eng), *final(eng)),
            old(eng).body_live(old(eng).space_at(self.id() as int).static_body as int)
                ==> final(eng).body_slots() == old(eng).body_slots().update(
                old(eng).space_at(self.id() as int).static_body as int,
                None,
            ) && final(eng).destroyed_bodies() == old(eng).destroyed_bodies() + 1 && final(eng).created_bodies() == old(eng).created_bodies(),
            !old(eng).body_live(old(eng).space_at(self.id() as int).static_body as int)
                ==> bodies_unchanged(*old(eng), *final(eng)),
    {
        let slot = eng.space_slot(self.handle);
        if eng.is_body_live(slot.static_body) {
            eng.free_body_slot(slot.static_body);
        }
        eng.free_space_slot(self.handle);
    }
}

/// Appending a fresh element keeps a handle list duplicate-free.
proof fn lemma_no_dup_push(s: Seq<usize>, x: usize)
    requires
        s.no_duplicates(),
        !s.contains(x),
    ensures
        s.push(x).no_duplicates(),
{
    let t = s.push(x);
    assert forall|i: int, j: int|
        0 <= i < t.len() && 0 <= j < t.len() && i != j implies t[i] != t[j] by {
        if i < s.len() && j < s.len() {
        } else if i == s.len() {
            if t[j] == x {
                assert(s[j] == x);
                assert(s.contains(x));
            }
        } else {
            if t[i] == x {
                assert(s[i] == x);
                assert(s.contains(x));
            }
        }
    }
}

/// Removing an element keeps a handle list duplicate-free, and with no
/// duplicates removing the match removes every occurrence.
proof fn lemma_no_dup_remove(s: Seq<usize>, k: int)
    requires
        s.no_duplicates(),
        0 <= k < s.len(),
    ensures
        s.remove(k).no_duplicates(),
        !s.remove(k).contains(s[k]),
{
    let t = s.remove(k);
    assert forall|i: int, j: int|
        0 <= i < t.len() && 0 <= j < t.len() && i != j implies t[i] != t[j] by {}
    assert forall|i: int| 0 <= i < t.len() implies t[i] != s[k] by {}
}

/// Law: stepping with a zero time increment leaves every body exactly as
/// it was — position, velocity and angle included.
pub proof fn lemma_zero_dt_is_noop(st: BodyState, gravity: Vect)
    ensures
        integrated(st, gravity, 0) == st,
{
}

/// Law: a whole step with a zero time increment leaves the body slots of
/// the engine exactly as they were.
pub proof fn lemma_zero_dt_step_preserves_bodies(
    pre: Seq<Option<BodyState>>,
    reg: Seq<usize>,
    gravity: Vect,
)
    ensures
        stepped_bodies(pre, reg, gravity, 0) == pre,
{
    assert forall|h: int|
        0 <= h < pre.len() implies stepped_bodies(pre, reg, gravity, 0)[h] == pre[h] by {
        if pre[h] is Some && reg.contains(h as usize) {
            lemma_zero_dt_is_noop(pre[h]->Some_0, gravity);
        }
    }
    assert(stepped_bodies(pre, reg, gravity, 0) =~= pre);
}

} // verus!
