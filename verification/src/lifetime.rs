//! The life of a pooled resource, from its making to its destruction.
//!
//! A history is a run of events on one kind of resource: a resource is made
//! in the pool and its first handle handed out, a handle is referenced once
//! more, a handle is given back, the pool is swept. The events may come in
//! any order, as long as nobody references or gives back a handle that is not
//! there. Whatever the order, a resource is handed out for destruction at
//! most once, never while a handle to it is left, and by the first sweep that
//! finds it without handles.

use vstd::prelude::*;
use vstd::seq_lib::{to_multiset_build, to_multiset_contains};
use crate::arena::{created, ids_of, live, occurrences, refs, released, retained, swept, Slot};

verus! {

/// What can happen to the resources of one kind.
pub enum Event<T> {
    /// A resource is made in the pool, as by `Manager::make_buffer`: the pool
    /// refers to it, and so does the handle that is handed out.
    Create(T),
    /// A handle to the resource in a slot is referenced once more, as by
    /// `Manager::ref_buffer` or by duplicating it.
    Reference(usize),
    /// A handle to the resource in a slot is given back, by itself or with
    /// the manager that referred to it.
    Release(usize),
    /// The pool is swept, as by `Manager::clean_with`, and hands out these
    /// resources for destruction.
    Sweep(Seq<(usize, T)>),
}

/// The slots of one kind, and the references of the pool to them.
pub struct Stage<T> {
    pub slots: Seq<Option<Slot<T>>>,
    pub held: Seq<usize>,
}

/// The event `e` leads from `s0` to `s1`.
pub open spec fn step<T>(s0: Stage<T>, e: Event<T>, s1: Stage<T>) -> bool {
    match e {
        Event::Create(value) => s0.slots.len() < usize::MAX && s1.slots == created(s0.slots, value)
            && s1.held == s0.held.push(s0.slots.len() as usize),
        Event::Reference(id) => s1.slots == retained(s0.slots, id as int) && s1.held == s0.held,
        Event::Release(id) => s1.slots == released(s0.slots, id as int) && s1.held == s0.held,
        Event::Sweep(freed) => swept(s0.slots, s0.held, s1.slots, s1.held, freed),
    }
}

/// `stages` is what the events lead through, one after the other, from a
/// pool without resources.
pub open spec fn history<T>(stages: Seq<Stage<T>>, events: Seq<Event<T>>) -> bool {
    &&& stages.len() == events.len() + 1
    &&& stages[0].slots.len() == 0
    &&& stages[0].held.len() == 0
    &&& forall|k: int|
        0 <= k < events.len() ==> step(stages[k], #[trigger] events[k], stages[k + 1])
}

/// The number of handles to the resource in slot `id` after the first `k`
/// events: one for its making and for each reference, one less for each
/// handle given back.
pub open spec fn handles<T>(stages: Seq<Stage<T>>, events: Seq<Event<T>>, k: int, id: usize) -> int
    decreases k,
{
    if k <= 0 {
        0
    } else {
        handles(stages, events, k - 1, id) + match events[k - 1] {
            Event::Create(_) => if stages[k - 1].slots.len() == id {
                1int
            } else {
                0int
            },
            Event::Reference(slot) => if slot == id {
                1int
            } else {
                0int
            },
            Event::Release(slot) => if slot == id {
                -1int
            } else {
                0int
            },
            Event::Sweep(_) => 0int,
        }
    }
}

/// How often the resource in slot `id` was handed out for destruction during
/// the first `k` events.
pub open spec fn destructions<T>(events: Seq<Event<T>>, k: int, id: usize) -> nat
    decreases k,
{
    if k <= 0 {
        0
    } else {
        destructions(events, k - 1, id) + match events[k - 1] {
            Event::Sweep(freed) => if ids_of(freed).contains(id) {
                1nat
            } else {
                0nat
            },
            _ => 0nat,
        }
    }
}

/// Nobody references or gives back a handle that is not there, and no count
/// is driven beyond what it can hold.
pub open spec fn disciplined<T>(stages: Seq<Stage<T>>, events: Seq<Event<T>>) -> bool {
    forall|k: int|
        0 <= k < events.len() ==> match #[trigger] events[k] {
            Event::Reference(slot) => handles(stages, events, k, slot) > 0 && refs(
                stages[k].slots,
                slot as int,
            ) < u64::MAX,
            Event::Release(slot) => handles(stages, events, k, slot) > 0,
            _ => true,
        }
}

/// The books on slot `id` are in order. A resource that lives is referred to
/// by the pool once and by each of its `h` handles, and was never destroyed.
/// A resource that is gone has no handle left, the pool has forgotten it,
/// and it was destroyed once. A slot that was never filled has no history.
pub open spec fn accounted<T>(stage: Stage<T>, h: int, d: nat, id: usize) -> bool {
    &&& stage.slots.len() <= usize::MAX
    &&& id < stage.slots.len() && live(stage.slots, id as int) ==> h >= 0 && refs(
        stage.slots,
        id as int,
    ) == 1 + h && occurrences(stage.held, id) == 1 && d == 0
    &&& id < stage.slots.len() && !live(stage.slots, id as int) ==> h == 0 && occurrences(
        stage.held,
        id,
    ) == 0 && d == 1
    &&& id >= stage.slots.len() ==> h == 0 && occurrences(stage.held, id) == 0 && d == 0
}

/// The books are in order after every event of a disciplined history.
pub proof fn lemma_books_in_order<T>(
    stages: Seq<Stage<T>>,
    events: Seq<Event<T>>,
    k: int,
    id: usize,
)
    requires
        history(stages, events),
        disciplined(stages, events),
        0 <= k <= events.len(),
    ensures
        accounted(stages[k], handles(stages, events, k, id), destructions(events, k, id), id),
    decreases k,
{
    broadcast use vstd::multiset::group_multiset_axioms;

    if k == 0 {
        to_multiset_contains(stages[0].held, id);
        assert(!stages[0].held.contains(id));
    } else {
        lemma_books_in_order(stages, events, k - 1, id);
        let s0 = stages[k - 1];
        let s1 = stages[k];
        let e = events[k - 1];
        assert(step(s0, e, s1));
        let h0 = handles(stages, events, k - 1, id);
        match e {
            Event::Create(value) => {
                let made = s0.slots.len() as usize;
                to_multiset_build(s0.held, made);
            },
            Event::Reference(slot) => {
                lemma_books_in_order(stages, events, k - 1, slot);
            },
            Event::Release(slot) => {
                lemma_books_in_order(stages, events, k - 1, slot);
            },
            Event::Sweep(freed) => {
                to_multiset_contains(s0.held, id);
                assert(occurrences(s1.held, id) == occurrences(s0.held, id) - if ids_of(
                    freed,
                ).contains(id) {
                    1int
                } else {
                    0int
                });
                if id < s0.slots.len() {
                    assert(s1.slots[id as int] == if crate::arena::unique(s0.slots, id as int)
                        && s0.held.contains(id) {
                        None
                    } else {
                        s0.slots[id as int]
                    });
                }
            },
        }
    }
}

/// However making, referencing, giving back and sweeping are interleaved: a
/// resource is handed out for destruction at most once; a sweep hands it out
/// only when no handle to it is left; and a sweep that finds a resource of
/// the pool without handles hands it out, unless it was destroyed before.
pub proof fn lemma_destroyed_exactly_once<T>(
    stages: Seq<Stage<T>>,
    events: Seq<Event<T>>,
    id: usize,
)
    requires
        history(stages, events),
        disciplined(stages, events),
    ensures
        destructions(events, events.len() as int, id) <= 1,
        forall|k: int|
            0 <= k < events.len() && (#[trigger] events[k] matches Event::Sweep(freed) && ids_of(
                freed,
            ).contains(id)) ==> id < stages[k].slots.len() && handles(stages, events, k, id) == 0
                && destructions(events, k, id) == 0,
        forall|k: int|
            0 <= k < events.len() && (#[trigger] events[k]) is Sweep && id < stages[k].slots.len()
                && handles(stages, events, k, id) == 0 ==> destructions(events, k + 1, id) == 1,
{
    lemma_books_in_order(stages, events, events.len() as int, id);
    assert forall|k: int|
        0 <= k < events.len() && (#[trigger] events[k] matches Event::Sweep(freed) && ids_of(
            freed,
        ).contains(id)) implies id < stages[k].slots.len() && handles(stages, events, k, id) == 0
        && destructions(events, k, id) == 0 by {
        lemma_books_in_order(stages, events, k, id);
        assert(step(stages[k], events[k], stages[k + 1]));
    }
    assert forall|k: int|
        0 <= k < events.len() && (#[trigger] events[k]) is Sweep && id < stages[k].slots.len()
            && handles(stages, events, k, id) == 0 implies destructions(events, k + 1, id)
        == 1 by {
        lemma_books_in_order(stages, events, k, id);
        lemma_books_in_order(stages, events, k + 1, id);
        assert(step(stages[k], events[k], stages[k + 1]));
        to_multiset_contains(stages[k].held, id);
    }
}

/// However making, referencing, giving back and sweeping are interleaved: a
/// resource to which a handle is left lives.
pub proof fn lemma_alive_while_held<T>(
    stages: Seq<Stage<T>>,
    events: Seq<Event<T>>,
    k: int,
    id: usize,
)
    requires
        history(stages, events),
        disciplined(stages, events),
        0 <= k <= events.len(),
        handles(stages, events, k, id) > 0,
    ensures
        live(stages[k].slots, id as int),
        refs(stages[k].slots, id as int) == 1 + handles(stages, events, k, id),
        destructions(events, k, id) == 0,
{
    lemma_books_in_order(stages, events, k, id);
}

} // verus!
