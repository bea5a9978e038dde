//! One lineage of handles: the ids it has issued and the creation trace of
//! each id that is still live.

use std::backtrace::Backtrace;
use std::collections::HashMap;
use vstd::prelude::*;

verus! {

broadcast use vstd::std_specs::hash::group_hash_axioms;

/// A captured call stack; its contents are never inspected here.
#[verifier::external_type_specification]
#[verifier::external_body]
pub struct ExBacktrace(Backtrace);

/// Relies on `std::backtrace::Backtrace::capture`: records the current call
/// stack. What it holds depends on the environment, so nothing is promised.
#[verifier::external_body]
fn capture_trace() -> (r: Backtrace) {
    Backtrace::capture()
}

/// The abstract state of a tracer.
pub struct TracerModel {
    /// The name of the lineage (the payload's type).
    pub name: Seq<char>,
    /// The id that the next issue hands out.
    pub next_id: nat,
    /// The ids whose handles are still alive.
    pub live: Set<u64>,
}

impl TracerModel {
    /// A tracer that has issued nothing yet.
    pub open spec fn fresh(name: Seq<char>) -> TracerModel {
        TracerModel { name, next_id: 0, live: Set::empty() }
    }

    /// Every live id was issued before: it lies below `next_id`.
    pub open spec fn wf(self) -> bool {
        &&& self.next_id <= u64::MAX
        &&& self.live.finite()
        &&& forall|id: u64| #[trigger] self.live.contains(id) ==> id < self.next_id
    }

    /// The id space is not yet exhausted.
    pub open spec fn can_issue(self) -> bool {
        self.next_id < u64::MAX
    }

    /// Issuing hands out `next_id`, marks it live and moves the counter on.
    pub open spec fn issue(self) -> TracerModel {
        TracerModel {
            name: self.name,
            next_id: self.next_id + 1,
            live: self.live.insert(self.next_id as u64),
        }
    }

    /// Releasing forgets `id`; an id that is not live is left alone.
    pub open spec fn release(self, id: u64) -> TracerModel {
        TracerModel { name: self.name, next_id: self.next_id, live: self.live.remove(id) }
    }
}

/// Records, for one lineage of handles, where each live handle was created.
pub struct Tracer {
    name: String,
    next_id: u64,
    locations: HashMap<u64, Backtrace>,
}

impl View for Tracer {
    type V = TracerModel;

    closed spec fn view(&self) -> TracerModel {
        TracerModel {
            name: self.name@,
            next_id: self.next_id as nat,
            live: self.locations@.dom(),
        }
    }
}

impl Tracer {
    /// The creation trace recorded under each live id.
    pub closed spec fn traces(&self) -> Map<u64, Backtrace> {
        self.locations@
    }

    /// The tracer's state is consistent, and a trace is kept for exactly the
    /// live ids.
    pub open spec fn wf(&self) -> bool {
        &&& self@.wf()
        &&& self.traces().dom() == self@.live
    }

    /// A tracer named `name` that has issued no id.
    pub fn new(name: String) -> (t: Tracer)
        ensures
            t@ == TracerModel::fresh(name@),
            t.traces() == Map::<u64, Backtrace>::empty(),
            t.wf(),
    {
        let t = Tracer { name, next_id: 0, locations: HashMap::new() };
        assert(t@.live =~= Set::empty());
        t
    }

    /// Issues a fresh id, recording the call stack under it.
    pub fn get_next_id(&mut self) -> (id: u64)
        requires
            old(self).wf(),
            old(self)@.can_issue(),
        ensures
            id as nat == old(self)@.next_id,
            final(self)@ == old(self)@.issue(),
            !old(self)@.live.contains(id),
            final(self)@.live.len() == old(self)@.live.len() + 1,
            final(self).traces() == old(self).traces().insert(id, final(self).traces()[id]),
            final(self).wf(),
    {
        let id = self.next_id;
        self.next_id = id + 1;
        let trace = capture_trace();
        self.locations.insert(id, trace);
        assert(self@.live =~= old(self)@.live.insert(id));
        assert(self.traces() =~= old(self).traces().insert(id, self.traces()[id]));
        id
    }

    /// Forgets `id`; an id that is not live is ignored.
    pub fn drop_id(&mut self, id: u64)
        requires
            old(self).wf(),
        ensures
            final(self)@ == old(self)@.release(id),
            final(self)@.live.len() == if old(self)@.live.contains(id) {
                old(self)@.live.len() - 1
            } else {
                old(self)@.live.len() as int
            },
            final(self).traces() == old(self).traces().remove(id),
            final(self).wf(),
    {
        self.locations.remove(&id);
        assert(self@.live =~= old(self)@.live.remove(id));
        assert(self.traces() =~= old(self).traces().remove(id));
    }

    /// The lineage's name.
    pub fn name(&self) -> (r: &str)
        ensures
            r@ == self@.name,
    {
        self.name.as_str()
    }

    /// The id that the next issue will hand out.
    pub fn next_id(&self) -> (r: u64)
        ensures
            r as nat == self@.next_id,
    {
        self.next_id
    }

    /// Whether `id` belongs to a handle that is still alive.
    pub fn is_live(&self, id: u64) -> (r: bool)
        ensures
            r == self@.live.contains(id),
    {
        self.locations.contains_key(&id)
    }

    /// How many ids are live.
    pub fn live_count(&self) -> (r: usize)
        ensures
            r as nat == self@.live.len(),
    {
        self.locations.len()
    }

    /// The trace recorded when `id` was issued, while `id` is live.
    pub fn location(&self, id: u64) -> (r: Option<&Backtrace>)
        ensures
            r is Some <==> self@.live.contains(id),
            r is Some ==> *r.unwrap() == self.traces()[id],
    {
        self.locations.get(&id)
    }

    /// The live ids, in increasing order.
    pub fn live_ids(&self) -> (r: Vec<u64>)
        requires
            self.wf(),
        ensures
            forall|i: int, j: int| 0 <= i < j < r@.len() ==> r@[i] < r@[j],
            forall|id: u64| r@.contains(id) <==> self@.live.contains(id),
    {
        let mut r: Vec<u64> = Vec::new();
        let mut k: u64 = 0;
        while k < self.next_id
            invariant
                k <= self.next_id,
                forall|i: int, j: int| 0 <= i < j < r@.len() ==> r@[i] < r@[j],
                forall|i: int| 0 <= i < r@.len() ==> r@[i] < k,
                forall|id: u64| r@.contains(id) <==> (id < k && self@.live.contains(id)),
            decreases self.next_id - k,
        {
            let ghost before = r@;
            if self.locations.contains_key(&k) {
                r.push(k);
                assert(r@[r@.len() - 1] == k);
            }
            assert forall|id: u64| r@.contains(id) <==> (id <= k && self@.live.contains(id)) by {
                if before.contains(id) {
                    let i = choose|i: int| 0 <= i < before.len() && before[i] == id;
                    assert(r@[i] == id);
                }
                if r@.contains(id) && id != k {
                    let i = choose|i: int| 0 <= i < r@.len() && r@[i] == id;
                    assert(before[i] == id);
                }
            }
            k = k + 1;
        }
        r
    }
}

} // verus!
