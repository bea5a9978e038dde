//! What a lineage's tracer holds after a history of issues and releases.

use crate::registry::{constructed, issued_at, released_at};
use crate::tracer::TracerModel;
use vstd::prelude::*;

verus! {

/// One step in the life of a lineage: a handle is constructed or duplicated
/// (an id is issued), or the handle holding an id is released.
pub enum LineageEvent {
    Issue,
    Release(u64),
}

/// The tracer after one event.
pub open spec fn apply(t: TracerModel, e: LineageEvent) -> TracerModel {
    match e {
        LineageEvent::Issue => t.issue(),
        LineageEvent::Release(id) => t.release(id),
    }
}

/// The tracer after the events of `evs`, in order.
pub open spec fn replay(t: TracerModel, evs: Seq<LineageEvent>) -> TracerModel
    decreases evs.len(),
{
    if evs.len() == 0 {
        t
    } else {
        apply(replay(t, evs.drop_last()), evs.last())
    }
}

/// How many ids `evs` issues.
pub open spec fn issue_count(evs: Seq<LineageEvent>) -> nat
    decreases evs.len(),
{
    if evs.len() == 0 {
        0
    } else {
        issue_count(evs.drop_last()) + if evs.last() is Issue {
            1nat
        } else {
            0nat
        }
    }
}

/// How many releases `evs` holds.
pub open spec fn release_count(evs: Seq<LineageEvent>) -> nat
    decreases evs.len(),
{
    if evs.len() == 0 {
        0
    } else {
        release_count(evs.drop_last()) + if evs.last() is Release {
            1nat
        } else {
            0nat
        }
    }
}

/// The ids that `evs` releases.
pub open spec fn released_ids(evs: Seq<LineageEvent>) -> Set<u64>
    decreases evs.len(),
{
    if evs.len() == 0 {
        Set::empty()
    } else {
        match evs.last() {
            LineageEvent::Issue => released_ids(evs.drop_last()),
            LineageEvent::Release(id) => released_ids(evs.drop_last()).insert(id),
        }
    }
}

/// A history that handles can produce on a fresh tracer: each release names
/// an id issued earlier, and no handle is released twice.
pub open spec fn well_ordered(evs: Seq<LineageEvent>) -> bool
    decreases evs.len(),
{
    if evs.len() == 0 {
        true
    } else {
        let prefix = evs.drop_last();
        &&& well_ordered(prefix)
        &&& match evs.last() {
            LineageEvent::Issue => true,
            LineageEvent::Release(id) => id < issue_count(prefix) && !released_ids(prefix).contains(
                id,
            ),
        }
    }
}

/// The ids below `n`: those a fresh tracer hands out in its first `n` issues.
pub open spec fn ids_below(n: nat) -> Set<u64> {
    Set::new(|id: u64| id < n)
}

/// After any well-ordered history on a fresh tracer, the live ids are exactly
/// those issued and not yet released, and there are as many of them as
/// issues less releases.
pub proof fn lemma_live_is_issued_minus_released(name: Seq<char>, evs: Seq<LineageEvent>)
    requires
        well_ordered(evs),
        issue_count(evs) <= u64::MAX,
    ensures
        replay(TracerModel::fresh(name), evs).next_id == issue_count(evs),
        replay(TracerModel::fresh(name), evs).live == ids_below(issue_count(evs)).difference(
            released_ids(evs),
        ),
        replay(TracerModel::fresh(name), evs).live.finite(),
        replay(TracerModel::fresh(name), evs).live.len() + release_count(evs) == issue_count(evs),
    decreases evs.len(),
{
    let t0 = TracerModel::fresh(name);
    if evs.len() == 0 {
        assert(replay(t0, evs).live =~= ids_below(0).difference(released_ids(evs)));
    } else {
        let prefix = evs.drop_last();
        assert(issue_count(prefix) <= issue_count(evs));
        lemma_live_is_issued_minus_released(name, prefix);
        let before = replay(t0, prefix);
        let after = replay(t0, evs);
        match evs.last() {
            LineageEvent::Issue => {
                let id = issue_count(prefix) as u64;
                assert(!before.live.contains(id));
                assert(after.live =~= ids_below(issue_count(evs)).difference(released_ids(evs)))
                    by {
                    assert forall|x: u64| released_ids(prefix).contains(x) implies x
                        < issue_count(prefix) by {
                        lemma_released_were_issued(prefix, x);
                    }
                }
            },
            LineageEvent::Release(id) => {
                assert(before.live.contains(id));
                assert(after.live =~= ids_below(issue_count(evs)).difference(released_ids(evs)));
            },
        }
    }
}

/// A well-ordered history releases only ids that it issued.
pub proof fn lemma_released_were_issued(evs: Seq<LineageEvent>, id: u64)
    requires
        well_ordered(evs),
        released_ids(evs).contains(id),
    ensures
        id < issue_count(evs),
    decreases evs.len(),
{
    let prefix = evs.drop_last();
    match evs.last() {
        LineageEvent::Issue => lemma_released_were_issued(prefix, id),
        LineageEvent::Release(x) => {
            if x != id {
                lemma_released_were_issued(prefix, id);
            }
        },
    }
}

/// Releasing every handle of a lineage leaves its tracer with no live id.
pub proof fn lemma_releasing_all_leaves_none(name: Seq<char>, evs: Seq<LineageEvent>)
    requires
        well_ordered(evs),
        issue_count(evs) <= u64::MAX,
        forall|id: u64| id < issue_count(evs) ==> #[trigger] released_ids(evs).contains(id),
    ensures
        replay(TracerModel::fresh(name), evs).live == Set::<u64>::empty(),
{
    lemma_live_is_issued_minus_released(name, evs);
    assert(replay(TracerModel::fresh(name), evs).live =~= Set::<u64>::empty());
}

/// Two constructions give two separate tracers, even under one name: each
/// starts with id 0 as its only live id and 1 as its next id, and issuing or
/// releasing through either one leaves the other as it was.
pub proof fn lemma_constructions_are_independent(
    reg: Seq<TracerModel>,
    first: Seq<char>,
    second: Seq<char>,
    id: u64,
)
    ensures
        ({
            let r = constructed(constructed(reg, first), second);
            let a = reg.len() as int;
            let b = reg.len() + 1int;
            &&& r.len() == reg.len() + 2
            &&& r[a].name == first && r[b].name == second
            &&& r[a].next_id == 1 && r[b].next_id == 1
            &&& r[a].live == set![0u64] && r[b].live == set![0u64]
            &&& issued_at(r, a)[b] == r[b] && issued_at(r, b)[a] == r[a]
            &&& released_at(r, a, id)[b] == r[b] && released_at(r, b, id)[a] == r[a]
        }),
{
    let r = constructed(constructed(reg, first), second);
    assert(r[reg.len() as int].live =~= set![0u64]);
    assert(r[reg.len() + 1int].live =~= set![0u64]);
}

/// An owning cycle: handles A and B start two lineages, A's payload keeps a
/// duplicate of B (B's id 1) and B's payload a duplicate of A (A's id 1).
/// When the two originals are released the duplicates stay owned by the
/// cycle, so each tracer keeps exactly id 1.
pub proof fn lemma_owning_cycle_keeps_one_id_each(
    reg: Seq<TracerModel>,
    a_name: Seq<char>,
    b_name: Seq<char>,
)
    ensures
        ({
            let a = reg.len() as int;
            let b = reg.len() + 1int;
            let started = constructed(constructed(reg, a_name), b_name);
            let linked = issued_at(issued_at(started, b), a);
            let ended = released_at(released_at(linked, a, 0), b, 0);
            &&& ended[a].live == set![1u64]
            &&& ended[b].live == set![1u64]
        }),
{
    let a = reg.len() as int;
    let b = reg.len() + 1int;
    let started = constructed(constructed(reg, a_name), b_name);
    let linked = issued_at(issued_at(started, b), a);
    let ended = released_at(released_at(linked, a, 0), b, 0);
    assert(ended[a].live =~= set![1u64]);
    assert(ended[b].live =~= set![1u64]);
}

/// A cycle broken by a non-owning back-reference: A's payload keeps a
/// duplicate of B (B's id 1), while B refers back to A without a handle.
/// Releasing B, then A, and with A's payload the duplicate of B it owned,
/// leaves both tracers with no live id.
pub proof fn lemma_weak_back_reference_leaves_none(
    reg: Seq<TracerModel>,
    a_name: Seq<char>,
    b_name: Seq<char>,
)
    ensures
        ({
            let a = reg.len() as int;
            let b = reg.len() + 1int;
            let started = constructed(constructed(reg, a_name), b_name);
            let linked = issued_at(started, b);
            let ended = released_at(released_at(released_at(linked, b, 0), a, 0), b, 1);
            &&& ended[a].live == Set::<u64>::empty()
            &&& ended[b].live == Set::<u64>::empty()
        }),
{
    let a = reg.len() as int;
    let b = reg.len() + 1int;
    let started = constructed(constructed(reg, a_name), b_name);
    let linked = issued_at(started, b);
    let ended = released_at(released_at(released_at(linked, b, 0), a, 0), b, 1);
    assert(ended[a].live =~= Set::<u64>::empty());
    assert(ended[b].live =~= Set::<u64>::empty());
}

} // verus!
