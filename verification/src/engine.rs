//! The instrumented simulation core.
//!
//! `Engine` stands for the native layer of the physics engine: it owns every
//! object the handles point at. Each create call appends a fresh slot and
//! each destroy call clears one, so handles are never reused, and the engine
//! counts every create and destroy per object kind. The well-formedness
//! invariant ties the counters to the slots, which is what makes the
//! "released exactly once" guarantees of the wrapper types provable.

use crate::vect::Vect;
use vstd::pervasive::unreached;
use vstd::prelude::*;

verus! {

/// Kind of a rigid body: integrated by the solver, moved only by its own
/// velocity, or fixed.
#[derive(Clone, Copy, PartialEq, Eq, Structural, Debug)]
pub enum BodyKind {
    Dynamic,
    Kinematic,
    Static,
}

/// The full state of one rigid body.
#[derive(Clone, Copy, PartialEq, Eq, Structural, Debug)]
pub struct BodyState {
    pub kind: BodyKind,
    pub mass: i64,
    pub moment: i64,
    pub position: Vect,
    pub center_of_gravity: Vect,
    pub velocity: Vect,
    pub force: Vect,
    pub angle: i64,
    pub angular_velocity: i64,
    pub torque: i64,
    pub user_data: u64,
    pub sleeping: bool,
}

/// Geometry of a collision shape, fixed at construction.
#[derive(Clone, Debug)]
pub enum ShapeGeom {
    Circle { radius: i64, offset: Vect },
    Segment { a: Vect, b: Vect, radius: i64, normal: Vect },
    Poly { verts: Vec<Vect>, radius: i64 },
}

/// Material and query properties of a collision shape, mutable over its
/// lifetime.
#[derive(Clone, Copy, PartialEq, Eq, Structural, Debug)]
pub struct ShapeProps {
    pub mass: i64,
    pub density: i64,
    pub sensor: bool,
    pub elasticity: i64,
    pub friction: i64,
    pub surface_velocity: Vect,
    pub user_data: u64,
}

/// The full state of one collision shape: the body it is attached to, its
/// geometry and its material properties.
#[derive(Clone, Debug)]
pub struct ShapeState {
    pub body: usize,
    pub geom: ShapeGeom,
    pub props: ShapeProps,
}

/// The state of one constraint: the pair of bodies it joins. Solving the
/// constraint is the solver's business and out of scope here.
#[derive(Clone, Copy, PartialEq, Eq, Structural, Debug)]
pub struct ConstraintState {
    pub body_a: usize,
    pub body_b: usize,
}

/// Tunable properties of a simulation space.
#[derive(Clone, Copy, PartialEq, Eq, Structural, Debug)]
pub struct SpaceProps {
    pub iterations: i32,
    pub gravity: Vect,
    pub damping: i64,
    pub idle_speed_threshold: i64,
    pub sleep_time_threshold: i64,
    pub collision_slop: i64,
    pub collision_bias: i64,
    pub collision_persistence: u32,
    pub user_data: u64,
    pub current_time_step: i64,
}

/// The engine-side record of one space: its properties and the handle of
/// its built-in static body.
#[derive(Clone, Copy, PartialEq, Eq, Structural, Debug)]
pub struct SpaceSlot {
    pub props: SpaceProps,
    pub static_body: usize,
}

/// One where a slot holds nothing, zero where it holds an object.
pub open spec fn slot_gone<T>(o: Option<T>) -> int {
    if o is Some {
        0
    } else {
        1
    }
}

/// How many slots of a slot array have been cleared by a destroy call.
pub open spec fn dead_count<T>(s: Seq<Option<T>>) -> int
    decreases s.len(),
{
    if s.len() == 0 {
        0
    } else {
        dead_count(s.drop_last()) + slot_gone(s.last())
    }
}

proof fn lemma_dead_count_le_len<T>(s: Seq<Option<T>>)
    ensures
        0 <= dead_count(s) <= s.len(),
    decreases s.len(),
{
    if s.len() > 0 {
        lemma_dead_count_le_len(s.drop_last());
    }
}

proof fn lemma_dead_count_push<T>(s: Seq<Option<T>>, v: Option<T>)
    ensures
        dead_count(s.push(v)) == dead_count(s) + slot_gone(v),
{
    assert(s.push(v).drop_last() =~= s);
}

proof fn lemma_dead_count_update<T>(s: Seq<Option<T>>, i: int, v: Option<T>)
    requires
        0 <= i < s.len(),
    ensures
        dead_count(s.update(i, v)) == dead_count(s) - slot_gone(s[i]) + slot_gone(v),
    decreases s.len(),
{
    let t = s.update(i, v);
    if i == s.len() - 1 {
        assert(t.drop_last() =~= s.drop_last());
    } else {
        assert(t.drop_last() =~= s.drop_last().update(i, v));
        lemma_dead_count_update(s.drop_last(), i, v);
    }
}

/// The instrumented simulation core: the owner of every body, shape,
/// constraint and space slot, counting each create and destroy call.
pub struct Engine {
    bodies: Vec<Option<BodyState>>,
    shapes: Vec<Option<ShapeState>>,
    constraints: Vec<Option<ConstraintState>>,
    spaces: Vec<Option<SpaceSlot>>,
    n_bodies_created: u64,
    n_bodies_destroyed: u64,
    n_shapes_created: u64,
    n_shapes_destroyed: u64,
    n_constraints_created: u64,
    n_constraints_destroyed: u64,
    n_spaces_created: u64,
    n_spaces_destroyed: u64,
}

impl Engine {
    /// The body slot array: one entry per body ever created, cleared once
    /// the body is destroyed.
    pub closed spec fn body_slots(self) -> Seq<Option<BodyState>> {
        self.bodies@
    }

    pub closed spec fn shape_slots(self) -> Seq<Option<ShapeState>> {
        self.shapes@
    }

    pub closed spec fn constraint_slots(self) -> Seq<Option<ConstraintState>> {
        self.constraints@
    }

    pub closed spec fn space_slots(self) -> Seq<Option<SpaceSlot>> {
        self.spaces@
    }

    pub closed spec fn created_bodies(self) -> int {
        self.n_bodies_created as int
    }

    pub closed spec fn destroyed_bodies(self) -> int {
        self.n_bodies_destroyed as int
    }

    pub closed spec fn created_shapes(self) -> int {
        self.n_shapes_created as int
    }

    pub closed spec fn destroyed_shapes(self) -> int {
        self.n_shapes_destroyed as int
    }

    pub closed spec fn created_constraints(self) -> int {
        self.n_constraints_created as int
    }

    pub closed spec fn destroyed_constraints(self) -> int {
        self.n_constraints_destroyed as int
    }

    pub closed spec fn created_spaces(self) -> int {
        self.n_spaces_created as int
    }

    pub closed spec fn destroyed_spaces(self) -> int {
        self.n_spaces_destroyed as int
    }

    /// Handle `h` names a body that has been created and not yet destroyed.
    pub open spec fn body_live(self, h: int) -> bool {
        0 <= h < self.body_slots().len() && self.body_slots()[h] is Some
    }

    pub open spec fn shape_live(self, h: int) -> bool {
        0 <= h < self.shape_slots().len() && self.shape_slots()[h] is Some
    }

    pub open spec fn constraint_live(self, h: int) -> bool {
        0 <= h < self.constraint_slots().len() && self.constraint_slots()[h] is Some
    }

    pub open spec fn space_live(self, h: int) -> bool {
        0 <= h < self.space_slots().len() && self.space_slots()[h] is Some
    }

    /// The state of the live body at handle `h`.
    pub open spec fn body_at(self, h: int) -> BodyState
        recommends
            self.body_live(h),
    {
        self.body_slots()[h]->Some_0
    }

    pub open spec fn shape_at(self, h: int) -> ShapeState
        recommends
            self.shape_live(h),
    {
        self.shape_slots()[h]->Some_0
    }

    pub open spec fn constraint_at(self, h: int) -> ConstraintState
        recommends
            self.constraint_live(h),
    {
        self.constraint_slots()[h]->Some_0
    }

    pub open spec fn space_at(self, h: int) -> SpaceSlot
        recommends
            self.space_live(h),
    {
        self.space_slots()[h]->Some_0
    }

    /// Bookkeeping invariant: every slot that ever existed was created
    /// exactly once (handles are never reused), and the destroy counters
    /// count exactly the cleared slots.
    pub open spec fn wf(self) -> bool {
        &&& self.created_bodies() == self.body_slots().len()
        &&& self.destroyed_bodies() == dead_count(self.body_slots())
        &&& self.created_shapes() == self.shape_slots().len()
        &&& self.destroyed_shapes() == dead_count(self.shape_slots())
        &&& self.created_constraints() == self.constraint_slots().len()
        &&& self.destroyed_constraints() == dead_count(self.constraint_slots())
        &&& self.created_spaces() == self.space_slots().len()
        &&& self.destroyed_spaces() == dead_count(self.space_slots())
    }

    /// A fresh engine with no objects and all counters at zero.
    pub fn new() -> (e: Engine)
        ensures
            e.wf(),
            e.body_slots().len() == 0,
            e.shape_slots().len() == 0,
            e.constraint_slots().len() == 0,
            e.space_slots().len() == 0,
            e.created_bodies() == 0 && e.destroyed_bodies() == 0,
            e.created_shapes() == 0 && e.destroyed_shapes() == 0,
            e.created_constraints() == 0 && e.destroyed_constraints() == 0,
            e.created_spaces() == 0 && e.destroyed_spaces() == 0,
    {
        Engine {
            bodies: Vec::new(),
            shapes: Vec::new(),
            constraints: Vec::new(),
            spaces: Vec::new(),
            n_bodies_created: 0,
            n_bodies_destroyed: 0,
            n_shapes_created: 0,
            n_shapes_destroyed: 0,
            n_constraints_created: 0,
            n_constraints_destroyed: 0,
            n_spaces_created: 0,
            n_spaces_destroyed: 0,
        }
    }

    /// Number of body create calls made on this engine.
    pub fn bodies_created(&self) -> (n: u64)
        ensures
            n as int == self.created_bodies(),
    {
        self.n_bodies_created
    }

    /// Number of body destroy calls made on this engine.
    pub fn bodies_destroyed(&self) -> (n: u64)
        ensures
            n as int == self.destroyed_bodies(),
    {
        self.n_bodies_destroyed
    }

    pub fn shapes_created(&self) -> (n: u64)
        ensures
            n as int == self.created_shapes(),
    {
        self.n_shapes_created
    }

    pub fn shapes_destroyed(&self) -> (n: u64)
        ensures
            n as int == self.destroyed_shapes(),
    {
        self.n_shapes_destroyed
    }

    pub fn constraints_created(&self) -> (n: u64)
        ensures
            n as int == self.created_constraints(),
    {
        self.n_constraints_created
    }

    pub fn constraints_destroyed(&self) -> (n: u64)
        ensures
            n as int == self.destroyed_constraints(),
    {
        self.n_constraints_destroyed
    }

    pub fn spaces_created(&self) -> (n: u64)
        ensures
            n as int == self.created_spaces(),
    {
        self.n_spaces_created
    }

    pub fn spaces_destroyed(&self) -> (n: u64)
        ensures
            n as int == self.destroyed_spaces(),
    {
        self.n_spaces_destroyed
    }

    pub(crate) fn alloc_body(&mut self, st: BodyState) -> (h: usize)
        requires
            old(self).wf(),
        ensures
            final(self).wf(),
            body_allocated(*old(self), *final(self), st, h as int),
    {
        proof {
            lemma_dead_count_push(self.bodies@, Some(st));
        }
        let h: usize = self.bodies.len();
        self.bodies.push(Some(st));
        self.n_bodies_created = self.bodies.len() as u64;
        h
    }

    pub(crate) fn body_slot_count(&self) -> (n: usize)
        ensures
            n == self.body_slots().len(),
    {
        self.bodies.len()
    }

    pub(crate) fn is_body_live(&self, h: usize) -> (r: bool)
        ensures
            r == self.body_live(h as int),
    {
        h < self.bodies.len() && self.bodies[h].is_some()
    }

    pub(crate) fn body_state(&self, h: usize) -> (st: BodyState)
        requires
            self.body_live(h as int),
        ensures
            st == self.body_at(h as int),
    {
        match self.bodies[h] {
            Some(st) => st,
            None => unreached(),
        }
    }

    pub(crate) fn set_body_state(&mut self, h: usize, st: BodyState)
        requires
            old(self).wf(),
            old(self).body_live(h as int),
        ensures
            final(self).wf(),
            body_updated(*old(self), *final(self), h as int, st),
    {
        proof {
            lemma_dead_count_update(self.bodies@, h as int, Some(st));
        }
        self.bodies.set(h, Some(st));
    }

    pub(crate) fn free_body_slot(&mut self, h: usize)
        requires
            old(self).wf(),
            old(self).body_live(h as int),
        ensures
            final(self).wf(),
            body_freed(*old(self), *final(self), h as int),
    {
        proof {
            lemma_dead_count_update(self.bodies@, h as int, None::<BodyState>);
            lemma_dead_count_le_len(self.bodies@.update(h as int, None::<BodyState>));
        }
        // the exec length bounds the slot count, so the destroy counter
        // below cannot overflow
        let _slot_count: usize = self.bodies.len();
        self.bodies.set(h, None);
        self.n_bodies_destroyed = self.n_bodies_destroyed + 1;
    }

    pub(crate) fn alloc_shape(&mut self, st: ShapeState) -> (h: usize)
        requires
            old(self).wf(),
        ensures
            final(self).wf(),
            shape_allocated(*old(self), *final(self), st, h as int),
    {
        proof {
            lemma_dead_count_push(self.shapes@, Some(st));
        }
        let h: usize = self.shapes.len();
        self.shapes.push(Some(st));
        self.n_shapes_created = self.shapes.len() as u64;
        h
    }

    pub(crate) fn shape_body(&self, h: usize) -> (b: usize)
        requires
            self.shape_live(h as int),
        ensures
            b == self.shape_at(h as int).body,
    {
        match &self.shapes[h] {
            Some(st) => st.body,
            None => unreached(),
        }
    }

    pub(crate) fn shape_geom(&self, h: usize) -> (g: &ShapeGeom)
        requires
            self.shape_live(h as int),
        ensures
            *g == self.shape_at(h as int).geom,
    {
        match &self.shapes[h] {
            Some(st) => &st.geom,
            None => unreached(),
        }
    }

    pub(crate) fn shape_props(&self, h: usize) -> (p: ShapeProps)
        requires
            self.shape_live(h as int),
        ensures
            p == self.shape_at(h as int).props,
    {
        match &self.shapes[h] {
            Some(st) => st.props,
            None => unreached(),
        }
    }

    pub(crate) fn set_shape_props(&mut self, h: usize, p: ShapeProps)
        requires
            old(self).wf(),
            old(self).shape_live(h as int),
        ensures
            final(self).wf(),
            shape_updated(*old(self), *final(self), h as int, p),
    {
        proof {
            lemma_dead_count_update(
                self.shapes@,
                h as int,
                Some(shape_with_props(self.shapes@[h as int]->Some_0, p)),
            );
        }
        match &mut self.shapes[h] {
            Some(st) => {
                st.props = p;
            },
            None => unreached(),
        }
    }

    pub(crate) fn free_shape_slot(&mut self, h: usize)
        requires
            old(self).wf(),
            old(self).shape_live(h as int),
        ensures
            final(self).wf(),
            shape_freed(*old(self), *final(self), h as int),
    {
        proof {
            lemma_dead_count_update(self.shapes@, h as int, None::<ShapeState>);
            lemma_dead_count_le_len(self.shapes@.update(h as int, None::<ShapeState>));
        }
        // the exec length bounds the slot count, so the destroy counter
        // below cannot overflow
        let _slot_count: usize = self.shapes.len();
        self.shapes.set(h, None);
        self.n_shapes_destroyed = self.n_shapes_destroyed + 1;
    }

    pub(crate) fn alloc_constraint(&mut self, st: ConstraintState) -> (h: usize)
        requires
            old(self).wf(),
        ensures
            final(self).wf(),
            constraint_allocated(*old(self), *final(self), st, h as int),
    {
        proof {
            lemma_dead_count_push(self.constraints@, Some(st));
        }
        let h: usize = self.constraints.len();
        self.constraints.push(Some(st));
        self.n_constraints_created = self.constraints.len() as u64;
        h
    }

    pub(crate) fn constraint_state(&self, h: usize) -> (st: ConstraintState)
        requires
            self.constraint_live(h as int),
        ensures
            st == self.constraint_at(h as int),
    {
        match self.constraints[h] {
            Some(st) => st,
            None => unreached(),
        }
    }

    pub(crate) fn free_constraint_slot(&mut self, h: usize)
        requires
            old(self).wf(),
            old(self).constraint_live(h as int),
        ensures
            final(self).wf(),
            constraint_freed(*old(self), *final(self), h as int),
    {
        proof {
            lemma_dead_count_update(self.constraints@, h as int, None::<ConstraintState>);
            lemma_dead_count_le_len(self.constraints@.update(h as int, None::<ConstraintState>));
        }
        // the exec length bounds the slot count, so the destroy counter
        // below cannot overflow
        let _slot_count: usize = self.constraints.len();
        self.constraints.set(h, None);
        self.n_constraints_destroyed = self.n_constraints_destroyed + 1;
    }

    pub(crate) fn alloc_space(&mut self, slot: SpaceSlot) -> (h: usize)
        requires
            old(self).wf(),
        ensures
            final(self).wf(),
            space_allocated(*old(self), *final(self), slot, h as int),
    {
        proof {
            lemma_dead_count_push(self.spaces@, Some(slot));
        }
        let h: usize = self.spaces.len();
        self.spaces.push(Some(slot));
        self.n_spaces_created = self.spaces.len() as u64;
        h
    }

    pub(crate) fn space_slot(&self, h: usize) -> (s: SpaceSlot)
        requires
            self.space_live(h as int),
        ensures
            s == self.space_at(h as int),
    {
        match self.spaces[h] {
            Some(s) => s,
            None => unreached(),
        }
    }

    pub(crate) fn set_space_props(&mut self, h: usize, p: SpaceProps)
        requires
            old(self).wf(),
            old(self).space_live(h as int),
        ensures
            final(self).wf(),
            space_updated(*old(self), *final(self), h as int, p),
    {
        let slot = self.space_slot(h);
        proof {
            lemma_dead_count_update(
                self.spaces@,
                h as int,
                Some(SpaceSlot { props: p, ..slot }),
            );
        }
        self.spaces.set(h, Some(SpaceSlot { props: p, ..slot }));
    }

    pub(crate) fn free_space_slot(&mut self, h: usize)
        requires
            old(self).wf(),
            old(self).space_live(h as int),
        ensures
            final(self).wf(),
            space_freed(*old(self), *final(self), h as int),
    {
        proof {
            lemma_dead_count_update(self.spaces@, h as int, None::<SpaceSlot>);
            lemma_dead_count_le_len(self.spaces@.update(h as int, None::<SpaceSlot>));
        }
        // the exec length bounds the slot count, so the destroy counter
        // below cannot overflow
        let _slot_count: usize = self.spaces.len();
        self.spaces.set(h, None);
        self.n_spaces_destroyed = self.n_spaces_destroyed + 1;
    }
}

/// A shape state with its material properties replaced.
pub open spec fn shape_with_props(st: ShapeState, p: ShapeProps) -> ShapeState {
    ShapeState { props: p, ..st }
}

/// No body slot or body counter differs between `pre` and `post`.
pub open spec fn bodies_unchanged(pre: Engine, post: Engine) -> bool {
    &&& post.body_slots() == pre.body_slots()
    &&& post.created_bodies() == pre.created_bodies()
    &&& post.destroyed_bodies() == pre.destroyed_bodies()
}

pub open spec fn shapes_unchanged(pre: Engine, post: Engine) -> bool {
    &&& post.shape_slots() == pre.shape_slots()
    &&& post.created_shapes() == pre.created_shapes()
    &&& post.destroyed_shapes() == pre.destroyed_shapes()
}

pub open spec fn constraints_unchanged(pre: Engine, post: Engine) -> bool {
    &&& post.constraint_slots() == pre.constraint_slots()
    &&& post.created_constraints() == pre.created_constraints()
    &&& post.destroyed_constraints() == pre.destroyed_constraints()
}

pub open spec fn spaces_unchanged(pre: Engine, post: Engine) -> bool {
    &&& post.space_slots() == pre.space_slots()
    &&& post.created_spaces() == pre.created_spaces()
    &&& post.destroyed_spaces() == pre.destroyed_spaces()
}

/// Nothing in the engine differs between `pre` and `post`.
pub open spec fn engine_unchanged(pre: Engine, post: Engine) -> bool {
    &&& bodies_unchanged(pre, post)
    &&& shapes_unchanged(pre, post)
    &&& constraints_unchanged(pre, post)
    &&& spaces_unchanged(pre, post)
}

/// One create call for a body: a fresh slot holding `st` appears at the
/// fresh handle `h`, the create counter advances by one, and nothing else
/// changes.
pub open spec fn body_allocated(pre: Engine, post: Engine, st: BodyState, h: int) -> bool {
    &&& h == pre.body_slots().len()
    &&& post.body_slots() == pre.body_slots().push(Some(st))
    &&& post.created_bodies() == pre.created_bodies() + 1
    &&& post.destroyed_bodies() == pre.destroyed_bodies()
    &&& shapes_unchanged(pre, post)
    &&& constraints_unchanged(pre, post)
    &&& spaces_unchanged(pre, post)
}

/// The live body at `h` is replaced by `st`; no create or destroy call is
/// made and nothing else changes.
pub open spec fn body_updated(pre: Engine, post: Engine, h: int, st: BodyState) -> bool {
    &&& pre.body_live(h)
    &&& post.body_slots() == pre.body_slots().update(h, Some(st))
    &&& post.created_bodies() == pre.created_bodies()
    &&& post.destroyed_bodies() == pre.destroyed_bodies()
    &&& shapes_unchanged(pre, post)
    &&& constraints_unchanged(pre, post)
    &&& spaces_unchanged(pre, post)
}

/// One destroy call for the live body at `h`: its slot is cleared, the
/// destroy counter advances by one, and nothing else changes.
pub open spec fn body_freed(pre: Engine, post: Engine, h: int) -> bool {
    &&& pre.body_live(h)
    &&& post.body_slots() == pre.body_slots().update(h, None)
    &&& post.created_bodies() == pre.created_bodies()
    &&& post.destroyed_bodies() == pre.destroyed_bodies() + 1
    &&& shapes_unchanged(pre, post)
    &&& constraints_unchanged(pre, post)
    &&& spaces_unchanged(pre, post)
}

pub open spec fn shape_allocated(pre: Engine, post: Engine, st: ShapeState, h: int) -> bool {
    &&& h == pre.shape_slots().len()
    &&& post.shape_slots() == pre.shape_slots().push(Some(st))
    &&& post.created_shapes() == pre.created_shapes() + 1
    &&& post.destroyed_shapes() == pre.destroyed_shapes()
    &&& bodies_unchanged(pre, post)
    &&& constraints_unchanged(pre, post)
    &&& spaces_unchanged(pre, post)
}

/// The live shape at `h` keeps its body and geometry but has its material
/// properties replaced by `p`; nothing else changes.
pub open spec fn shape_updated(pre: Engine, post: Engine, h: int, p: ShapeProps) -> bool {
    &&& pre.shape_live(h)
    &&& post.shape_slots() == pre.shape_slots().update(
        h,
        Some(shape_with_props(pre.shape_at(h), p)),
    )
    &&& post.created_shapes() == pre.created_shapes()
    &&& post.destroyed_shapes() == pre.destroyed_shapes()
    &&& bodies_unchanged(pre, post)
    &&& constraints_unchanged(pre, post)
    &&& spaces_unchanged(pre, post)
}

pub open spec fn shape_freed(pre: Engine, post: Engine, h: int) -> bool {
    &&& pre.shape_live(h)
    &&& post.shape_slots() == pre.shape_slots().update(h, None)
    &&& post.created_shapes() == pre.created_shapes()
    &&& post.destroyed_shapes() == pre.destroyed_shapes() + 1
    &&& bodies_unchanged(pre, post)
    &&& constraints_unchanged(pre, post)
    &&& spaces_unchanged(pre, post)
}

pub open spec fn constraint_allocated(
    pre: Engine,
    post: Engine,
    st: ConstraintState,
    h: int,
) -> bool {
    &&& h == pre.constraint_slots().len()
    &&& post.constraint_slots() == pre.constraint_slots().push(Some(st))
    &&& post.created_constraints() == pre.created_constraints() + 1
    &&& post.destroyed_constraints() == pre.destroyed_constraints()
    &&& bodies_unchanged(pre, post)
    &&& shapes_unchanged(pre, post)
    &&& spaces_unchanged(pre, post)
}

pub open spec fn constraint_freed(pre: Engine, post: Engine, h: int) -> bool {
    &&& pre.constraint_live(h)
    &&& post.constraint_slots() == pre.constraint_slots().update(h, None)
    &&& post.created_constraints() == pre.created_constraints()
    &&& post.destroyed_constraints() == pre.destroyed_constraints() + 1
    &&& bodies_unchanged(pre, post)
    &&& shapes_unchanged(pre, post)
    &&& spaces_unchanged(pre, post)
}

pub open spec fn space_allocated(pre: Engine, post: Engine, slot: SpaceSlot, h: int) -> bool {
    &&& h == pre.space_slots().len()
    &&& post.space_slots() == pre.space_slots().push(Some(slot))
    &&& post.created_spaces() == pre.created_spaces() + 1
    &&& post.destroyed_spaces() == pre.destroyed_spaces()
    &&& bodies_unchanged(pre, post)
    &&& shapes_unchanged(pre, post)
    &&& constraints_unchanged(pre, post)
}

/// The live space at `h` keeps its static body but has its properties
/// replaced by `p`; nothing else changes.
pub open spec fn space_updated(pre: Engine, post: Engine, h: int, p: SpaceProps) -> bool {
    &&& pre.space_live(h)
    &&& post.space_slots() == pre.space_slots().update(
        h,
        Some(SpaceSlot { props: p, ..pre.space_at(h) }),
    )
    &&& post.created_spaces() == pre.created_spaces()
    &&& post.destroyed_spaces() == pre.destroyed_spaces()
    &&& bodies_unchanged(pre, post)
    &&& shapes_unchanged(pre, post)
    &&& constraints_unchanged(pre, post)
}

pub open spec fn space_freed(pre: Engine, post: Engine, h: int) -> bool {
    &&& pre.space_live(h)
    &&& post.space_slots() == pre.space_slots().update(h, None)
    &&& post.created_spaces() == pre.created_spaces()
    &&& post.destroyed_spaces() == pre.destroyed_spaces() + 1
    &&& bodies_unchanged(pre, post)
    &&& shapes_unchanged(pre, post)
    &&& constraints_unchanged(pre, post)
}

/// Law: a well-formed engine has never destroyed more objects of a kind
/// than it has created.
pub proof fn lemma_destroyed_le_created(e: Engine)
    requires
        e.wf(),
    ensures
        0 <= e.destroyed_bodies() <= e.created_bodies(),
        0 <= e.destroyed_shapes() <= e.created_shapes(),
        0 <= e.destroyed_constraints() <= e.created_constraints(),
        0 <= e.destroyed_spaces() <= e.created_spaces(),
{
    lemma_dead_count_le_len(e.body_slots());
    lemma_dead_count_le_len(e.shape_slots());
    lemma_dead_count_le_len(e.constraint_slots());
    lemma_dead_count_le_len(e.space_slots());
}

} // verus!
