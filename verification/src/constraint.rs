//! Constraint handles.
//!
//! A `Constraint` joins two bodies. Solving it is the solver's business and
//! out of scope; the wrapper exists for the custody protocol, which treats
//! constraints exactly like bodies: exclusively owned at creation, custody
//! transferred to a space on add and handed back on remove, and released
//! exactly once by the owning wrapper.

use crate::body::Body;
use crate::body::Ownership;
use crate::engine::constraint_allocated;
use crate::engine::constraint_freed;
use crate::engine::engine_unchanged;
use crate::engine::ConstraintState;
use crate::engine::Engine;
use vstd::prelude::*;

verus! {

/// A handle to one constraint, with the ownership tag that gates its
/// release.
pub struct Constraint {
    handle: usize,
    owner: Ownership,
}

impl Constraint {
    /// The engine handle this wrapper points at.
    pub closed spec fn id(self) -> usize {
        self.handle
    }

    /// The ownership tag of this wrapper.
    pub closed spec fn tag(self) -> Ownership {
        self.owner
    }

    /// The wrapper points at a live constraint of engine `e`.
    pub open spec fn live_in(self, e: Engine) -> bool {
        e.constraint_live(self.id() as int)
    }

    pub(crate) fn raw_handle(&self) -> (h: usize)
        ensures
            h == self.id(),
    {
        self.handle
    }

    pub(crate) fn mark_transferred(&mut self)
        ensures
            final(self).id() == old(self).id(),
            final(self).tag() == Ownership::Transferred,
    {
        self.owner = Ownership::Transferred;
    }

    pub(crate) fn mark_owned(&mut self)
        ensures
            final(self).id() == old(self).id(),
            final(self).tag() == Ownership::Owned,
    {
        self.owner = Ownership::Owned;
    }

    /// Create a constraint joining bodies `a` and `b`, exclusively owned by
    /// the returned wrapper.
    pub fn new(eng: &mut Engine, a: &Body, b: &Body) -> (c: Constraint)
        requires
            old(eng).wf(),
            a.live_in(*old(eng)),
            b.live_in(*old(eng)),
        ensures
            final(eng).wf(),
            c.tag() == Ownership::Owned,
            c.live_in(*final(eng)),
            constraint_allocated(
                *old(eng),
                *final(eng),
                (ConstraintState { body_a: a.id(), body_b: b.id() }),
                c.id() as int,
            ),
            final(eng).constraint_at(c.id() as int) == (ConstraintState {
                body_a: a.id(),
                body_b: b.id(),
            }),
    {
        let st = ConstraintState { body_a: a.raw_handle(), body_b: b.raw_handle() };
        let h = eng.alloc_constraint(st);
        Constraint { handle: h, owner: Ownership::Owned }
    }

    /// The handle of the first body the constraint joins.
    pub fn body_a(&self, eng: &Engine) -> (h: usize)
        requires
            self.live_in(*eng),
        ensures
            h == eng.constraint_at(self.id() as int).body_a,
    {
        eng.constraint_state(self.handle).body_a
    }

    /// The handle of the second body the constraint joins.
    pub fn body_b(&self, eng: &Engine) -> (h: usize)
        requires
            self.live_in(*eng),
        ensures
            h == eng.constraint_at(self.id() as int).body_b,
    {
        eng.constraint_state(self.handle).body_b
    }

    /// The ownership tag, reported for inspection.
    pub fn ownership(&self) -> (o: Ownership)
        ensures
            o == self.tag(),
    {
        self.owner
    }

    /// Destroy the wrapper. The underlying handle is released if and only
    /// if this wrapper exclusively owns it.
    pub fn free(self, eng: &mut Engine)
        requires
            old(eng).wf(),
            self.tag() == Ownership::Owned ==> old(eng).constraint_live(self.id() as int),
        ensures
            final(eng).wf(),
            self.tag() == Ownership::Owned ==> constraint_freed(
                *old(eng),
                *final(eng),
                self.id() as int,
            ),
            self.tag() != Ownership::Owned ==> engine_unchanged(*old(eng), *final(eng)),
    {
        match self.owner {
            Ownership::Owned => eng.free_constraint_slot(self.handle),
            _ => (),
        }
    }
}

} // verus!
