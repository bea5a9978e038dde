//! The list of every tracer that was created, one per construction.

use crate::tracer::{Tracer, TracerModel};
use std::backtrace::Backtrace;
use vstd::prelude::*;

verus! {

/// Every tracer in `reg` is consistent.
pub open spec fn registry_wf(reg: Seq<TracerModel>) -> bool {
    forall|i: int| 0 <= i < reg.len() ==> (#[trigger] reg[i]).wf()
}

/// `reg` after tracer `index` issued an id.
pub open spec fn issued_at(reg: Seq<TracerModel>, index: int) -> Seq<TracerModel> {
    reg.update(index, reg[index].issue())
}

/// `reg` after tracer `index` released `id`; an index past the end changes
/// nothing.
pub open spec fn released_at(reg: Seq<TracerModel>, index: int, id: u64) -> Seq<TracerModel> {
    if 0 <= index < reg.len() {
        reg.update(index, reg[index].release(id))
    } else {
        reg
    }
}

/// `reg` after a construction whose tracer is named `name`: a new tracer
/// that has issued id 0 is appended.
pub open spec fn constructed(reg: Seq<TracerModel>, name: Seq<char>) -> Seq<TracerModel> {
    reg.push(TracerModel::fresh(name).issue())
}

/// All tracers ever created, in order of creation; a tracer is identified by
/// its position.
pub struct Registry {
    tracers: Vec<Tracer>,
}

impl View for Registry {
    type V = Seq<TracerModel>;

    closed spec fn view(&self) -> Seq<TracerModel> {
        self.tracers@.map_values(|t: Tracer| t@)
    }
}

impl Registry {
    /// The creation traces kept by each tracer, by position.
    pub closed spec fn trace_maps(&self) -> Seq<Map<u64, Backtrace>> {
        self.tracers@.map_values(|t: Tracer| t.traces())
    }

    /// Every tracer in the registry is consistent and keeps a trace for
    /// exactly its live ids.
    pub open spec fn wf(&self) -> bool {
        &&& registry_wf(self@)
        &&& self.trace_maps().len() == self@.len()
        &&& forall|i: int|
            0 <= i < self@.len() ==> (#[trigger] self.trace_maps()[i]).dom() == self@[i].live
    }

    /// A registry with no tracers.
    pub fn new() -> (r: Registry)
        ensures
            r@ == Seq::<TracerModel>::empty(),
            r.trace_maps() == Seq::<Map<u64, Backtrace>>::empty(),
            r.wf(),
    {
        let r = Registry { tracers: Vec::new() };
        assert(r@ =~= Seq::<TracerModel>::empty());
        assert(r.trace_maps() =~= Seq::<Map<u64, Backtrace>>::empty());
        r
    }

    /// How many tracers were registered.
    pub fn len(&self) -> (r: usize)
        ensures
            r as nat == self@.len(),
    {
        self.tracers.len()
    }

    /// The tracer at position `index`.
    pub fn tracer(&self, index: usize) -> (t: &Tracer)
        requires
            index < self@.len(),
        ensures
            t@ == self@[index as int],
            t.traces() == self.trace_maps()[index as int],
    {
        &self.tracers[index]
    }

    /// Appends `tracer` and returns its position.
    pub fn register(&mut self, tracer: Tracer) -> (index: usize)
        requires
            old(self).wf(),
            tracer.wf(),
        ensures
            index as nat == old(self)@.len(),
            final(self)@ == old(self)@.push(tracer@),
            final(self).trace_maps() == old(self).trace_maps().push(tracer.traces()),
            final(self).wf(),
    {
        let index = self.tracers.len();
        let ghost t = tracer@;
        let ghost m = tracer.traces();
        self.tracers.push(tracer);
        assert(self@ =~= old(self)@.push(t));
        assert(self.trace_maps() =~= old(self).trace_maps().push(m));
        index
    }

    /// Issues an id from tracer `index`.
    pub fn issue(&mut self, index: usize) -> (id: u64)
        requires
            old(self).wf(),
            index < old(self)@.len(),
            old(self)@[index as int].can_issue(),
        ensures
            id as nat == old(self)@[index as int].next_id,
            final(self)@ == issued_at(old(self)@, index as int),
            final(self).trace_maps() == old(self).trace_maps().update(
                index as int,
                old(self).trace_maps()[index as int].insert(
                    id,
                    final(self).trace_maps()[index as int][id],
                ),
            ),
            final(self).wf(),
    {
        assert(self.tracers@[index as int]@ == self@[index as int]);
        assert(self.tracers@[index as int].traces() == self.trace_maps()[index as int]);
        let id = self.tracers[index].get_next_id();
        assert(self@ =~= issued_at(old(self)@, index as int));
        assert(self.trace_maps() =~= old(self).trace_maps().update(
            index as int,
            old(self).trace_maps()[index as int].insert(id, self.trace_maps()[index as int][id]),
        ));
        id
    }

    /// Releases `id` in tracer `index`; an unknown index or id is ignored.
    pub fn release(&mut self, index: usize, id: u64)
        requires
            old(self).wf(),
        ensures
            final(self)@ == released_at(old(self)@, index as int, id),
            final(self).trace_maps() == if index < old(self)@.len() {
                old(self).trace_maps().update(
                    index as int,
                    old(self).trace_maps()[index as int].remove(id),
                )
            } else {
                old(self).trace_maps()
            },
            final(self).wf(),
    {
        if index < self.tracers.len() {
            assert(self@[index as int].wf());
            assert(self.tracers@[index as int]@ == self@[index as int]);
            assert(self.tracers@[index as int].traces() == self.trace_maps()[index as int]);
            self.tracers[index].drop_id(id);
            assert(self@ =~= released_at(old(self)@, index as int, id));
            assert(self.trace_maps() =~= old(self).trace_maps().update(
                index as int,
                old(self).trace_maps()[index as int].remove(id),
            ));
        }
    }
}

} // verus!
