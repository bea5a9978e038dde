//! The shared handle: a reference-counted payload together with the tracer
//! of its lineage and its own id in that tracer.

use crate::registry::{constructed, issued_at, released_at, Registry};
use crate::tracer::Tracer;
use std::sync::Arc;
use vstd::prelude::*;

verus! {

/// Relies on `Arc::clone`: a new pointer to the same allocation, so the same
/// value.
#[verifier::external_body]
fn share<T>(a: &Arc<T>) -> (r: Arc<T>)
    ensures
        r == *a,
{
    Arc::clone(a)
}

/// Relies on `Arc::strong_count`: how many strong pointers to the allocation
/// exist at the moment of the call. Other owners may change it at any time;
/// `a` itself is one of them, so it is at least 1.
#[verifier::external_body]
fn strong_count_of<T>(a: &Arc<T>) -> (r: usize)
    ensures
        r >= 1,
{
    Arc::strong_count(a)
}

/// A shared handle to a payload of type `T`. All handles of one lineage (a
/// construction and everything duplicated from it) share one tracer of the
/// registry, in which each handle holds an id of its own.
pub struct ArcTrace<T> {
    arc: Arc<T>,
    tracer: usize,
    id: u64,
}

impl<T> ArcTrace<T> {
    /// The shared payload.
    pub closed spec fn payload(&self) -> T {
        *self.arc
    }

    /// The position of the lineage's tracer in the registry.
    pub closed spec fn tracer_index(&self) -> nat {
        self.tracer as nat
    }

    /// This handle's id within its tracer.
    pub closed spec fn instance_id(&self) -> u64 {
        self.id
    }

    /// Wraps `value` in a new handle and starts a new lineage: a tracer named
    /// `name` (the payload's type name) is appended to `registry` and issues
    /// id 0 to this handle.
    pub fn new(value: T, name: String, registry: &mut Registry) -> (h: Self)
        requires
            old(registry).wf(),
        ensures
            h.payload() == value,
            h.tracer_index() == old(registry)@.len(),
            h.instance_id() == 0,
            final(registry)@ == constructed(old(registry)@, name@),
            forall|j: int| 0 <= j < old(registry)@.len() ==> final(registry)@[j] == old(registry)@[j],
            final(registry).trace_maps().drop_last() == old(registry).trace_maps(),
            final(registry).trace_maps().last().dom() == set![0u64],
            final(registry).wf(),
    {
        let arc = Arc::new(value);
        let mut tracer = Tracer::new(name);
        let id = tracer.get_next_id();
        assert(tracer.traces().dom() =~= set![0u64]);
        let index = registry.register(tracer);
        assert(registry.trace_maps().drop_last() =~= old(registry).trace_maps());
        ArcTrace { arc, tracer: index, id }
    }

    /// A new handle to the same payload in the same lineage, with the next id
    /// of the lineage's tracer.
    pub fn duplicate(&self, registry: &mut Registry) -> (h: Self)
        requires
            old(registry).wf(),
            self.tracer_index() < old(registry)@.len(),
            old(registry)@[self.tracer_index() as int].can_issue(),
        ensures
            h.payload() == self.payload(),
            h.tracer_index() == self.tracer_index(),
            h.instance_id() as nat == old(registry)@[self.tracer_index() as int].next_id,
            final(registry)@ == issued_at(old(registry)@, self.tracer_index() as int),
            !old(registry)@[self.tracer_index() as int].live.contains(h.instance_id()),
            final(registry)@[self.tracer_index() as int].live == old(
                registry,
            )@[self.tracer_index() as int].live.insert(h.instance_id()),
            final(registry)@[self.tracer_index() as int].live.len() == old(
                registry,
            )@[self.tracer_index() as int].live.len() + 1,
            forall|j: int|
                0 <= j < old(registry)@.len() && j != self.tracer_index() ==> final(registry)@[j]
                    == old(registry)@[j],
            final(registry).trace_maps() == old(registry).trace_maps().update(
                self.tracer_index() as int,
                old(registry).trace_maps()[self.tracer_index() as int].insert(
                    h.instance_id(),
                    final(registry).trace_maps()[self.tracer_index() as int][h.instance_id()],
                ),
            ),
            final(registry).wf(),
    {
        proof {
            let t = old(registry)@[self.tracer_index() as int];
            assert(t.wf());
            assert(!t.live.contains(t.next_id as u64));
        }
        let arc = share(&self.arc);
        let id = registry.issue(self.tracer);
        ArcTrace { arc, tracer: self.tracer, id }
    }

    /// Ends this handle's tracking: its id is released from its tracer. The
    /// payload is let go when the handle itself is dropped afterwards, which
    /// lets a caller that guards `registry` unlock it first. A second release
    /// changes nothing.
    pub fn release(&self, registry: &mut Registry)
        requires
            old(registry).wf(),
        ensures
            final(registry)@ == released_at(
                old(registry)@,
                self.tracer_index() as int,
                self.instance_id(),
            ),
            final(registry).trace_maps() == if self.tracer_index() < old(registry)@.len() {
                old(registry).trace_maps().update(
                    self.tracer_index() as int,
                    old(registry).trace_maps()[self.tracer_index() as int].remove(
                        self.instance_id(),
                    ),
                )
            } else {
                old(registry).trace_maps()
            },
            final(registry).wf(),
    {
        registry.release(self.tracer, self.id);
    }

    /// The position of the lineage's tracer in the registry.
    pub fn tracer(&self) -> (r: usize)
        ensures
            r as nat == self.tracer_index(),
    {
        self.tracer
    }

    /// This handle's id within its tracer.
    pub fn id(&self) -> (r: u64)
        ensures
            r == self.instance_id(),
    {
        self.id
    }

    /// The shared payload.
    pub fn value(&self) -> (r: &T)
        ensures
            *r == self.payload(),
    {
        &*self.arc
    }

    /// How many owners the payload has right now; this handle is one.
    pub fn ref_count(&self) -> (r: usize)
        ensures
            r >= 1,
    {
        strong_count_of(&self.arc)
    }
}

impl<T> core::ops::Deref for ArcTrace<T> {
    type Target = T;

    fn deref(&self) -> (r: &T)
        ensures
            *r == self.payload(),
    {
        self.value()
    }
}

} // verus!
