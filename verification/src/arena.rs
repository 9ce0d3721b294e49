//! A store of reference-counted values.
//!
//! An [`Arena`] owns values of one kind, each in a numbered slot next to the
//! number of references that currently point at it. A slot number is never
//! handed out twice, so a number that has gone dead stays dead. Everything a
//! resource handle needs from a shared pointer is here, with the count in
//! plain sight: a reference is taken with [`Arena::retain`], given back with
//! [`Arena::release`], and a value whose last reference is the list that is
//! being swept leaves through [`Arena::sweep`].

use vstd::prelude::*;
use vstd::seq_lib::{to_multiset_remove, to_multiset_update};

verus! {

/// One stored value and the number of references to it.
pub struct Slot<T> {
    pub value: T,
    pub refs: u64,
}

/// Numbered slots; an emptied slot is `None` and is never filled again.
pub struct Arena<T> {
    slots: Vec<Option<Slot<T>>>,
}

/// Slot `id` holds a value.
pub open spec fn live<T>(a: Seq<Option<Slot<T>>>, id: int) -> bool {
    0 <= id < a.len() && a[id].is_some()
}

/// The number of references to slot `id`; zero for a dead slot.
pub open spec fn refs<T>(a: Seq<Option<Slot<T>>>, id: int) -> nat {
    if live(a, id) {
        a[id].unwrap().refs as nat
    } else {
        0
    }
}

/// Slot `id` holds a value that exactly one reference points at.
pub open spec fn unique<T>(a: Seq<Option<Slot<T>>>, id: int) -> bool {
    live(a, id) && a[id].unwrap().refs == 1
}

/// One more reference can be counted on slot `id`.
pub open spec fn can_retain<T>(a: Seq<Option<Slot<T>>>, id: int) -> bool {
    live(a, id) && a[id].unwrap().refs < u64::MAX
}

/// The slots after one more reference to `id` was taken.
pub open spec fn retained<T>(a: Seq<Option<Slot<T>>>, id: int) -> Seq<Option<Slot<T>>> {
    if can_retain(a, id) {
        a.update(id, Some(Slot { value: a[id].unwrap().value, refs: (a[id].unwrap().refs + 1) as u64 }))
    } else {
        a
    }
}

/// The slots after one reference to `id` was given back: the count falls by
/// one, and the slot is emptied when nothing points at it any more.
pub open spec fn released<T>(a: Seq<Option<Slot<T>>>, id: int) -> Seq<Option<Slot<T>>> {
    if !live(a, id) {
        a
    } else if a[id].unwrap().refs <= 1 {
        a.update(id, None)
    } else {
        a.update(id, Some(Slot { value: a[id].unwrap().value, refs: (a[id].unwrap().refs - 1) as u64 }))
    }
}

/// The slots after `value` was stored with two references to it: that of the
/// list it was made in, and that of the first handle.
pub open spec fn created<T>(a: Seq<Option<Slot<T>>>, value: T) -> Seq<Option<Slot<T>>> {
    a.push(Some(Slot { value, refs: 2 }))
}

/// The slots after every reference in `ids` was given back, first to last.
pub open spec fn released_all<T>(a: Seq<Option<Slot<T>>>, ids: Seq<usize>) -> Seq<Option<Slot<T>>>
    decreases ids.len(),
{
    if ids.len() == 0 {
        a
    } else {
        released_all(released(a, ids[0] as int), ids.drop_first())
    }
}

/// Taking one reference to slot `id` and noting it at the end of `list`.
/// Where no reference can be counted, nothing is noted.
pub open spec fn noted<T>(a: Seq<Option<Slot<T>>>, list: Seq<usize>, id: usize) -> (
    Seq<Option<Slot<T>>>,
    Seq<usize>,
) {
    if can_retain(a, id as int) {
        (retained(a, id as int), list.push(id))
    } else {
        (a, list)
    }
}

/// Taking and noting one reference for each entry of `src`, first to last.
pub open spec fn absorbed<T>(a: Seq<Option<Slot<T>>>, dst: Seq<usize>, src: Seq<usize>) -> (
    Seq<Option<Slot<T>>>,
    Seq<usize>,
)
    decreases src.len(),
{
    if src.len() == 0 {
        (a, dst)
    } else {
        let first = noted(a, dst, src[0]);
        absorbed(first.0, first.1, src.drop_first())
    }
}

/// How often `id` stands in `held`.
pub open spec fn occurrences(held: Seq<usize>, id: usize) -> nat {
    held.to_multiset().count(id)
}

/// The slot numbers of the values that a sweep handed out.
pub open spec fn ids_of<T>(freed: Seq<(usize, T)>) -> Seq<usize> {
    freed.map_values(|p: (usize, T)| p.0)
}

/// The entries `ids` stand in `held` at places `marks`, which go up from one
/// entry to the next.
pub open spec fn stand_at(held: Seq<usize>, ids: Seq<usize>, marks: Seq<int>) -> bool {
    &&& marks.len() == ids.len()
    &&& forall|k: int|
        0 <= k < ids.len() ==> 0 <= #[trigger] marks[k] < held.len() && held[marks[k]] == ids[k]
    &&& forall|j: int, k: int| 0 <= j < k < marks.len() ==> #[trigger] marks[j] < #[trigger] marks[k]
}

/// The entries `ids` come in the order in which they stand in `held`.
pub open spec fn in_order_of(held: Seq<usize>, ids: Seq<usize>) -> bool {
    exists|marks: Seq<int>| stand_at(held, ids, marks)
}

/// What one sweep of the list `h0` over the slots `a0` leaves behind: the
/// slots `a1`, the list `h1`, and the values `freed` that it handed out.
///
/// A value leaves exactly when the list holds its number and that entry is
/// the only reference to it. It leaves once, with its slot emptied and one
/// entry taken off the list; every other slot and entry stays as it was. The
/// values leave in the order in which the list held them. The order of the
/// list afterwards is left open.
pub open spec fn swept<T>(
    a0: Seq<Option<Slot<T>>>,
    h0: Seq<usize>,
    a1: Seq<Option<Slot<T>>>,
    h1: Seq<usize>,
    freed: Seq<(usize, T)>,
) -> bool {
    &&& a0.len() <= usize::MAX
    &&& ids_of(freed).no_duplicates()
    &&& in_order_of(h0, ids_of(freed))
    &&& forall|id: usize| #[trigger]
        ids_of(freed).contains(id) <==> h0.contains(id) && unique(a0, id as int)
    &&& forall|k: int|
        0 <= k < freed.len() ==> a0[(#[trigger] freed[k]).0 as int] == Some(
            Slot { value: freed[k].1, refs: 1 },
        )
    &&& a1.len() == a0.len()
    &&& forall|id: usize|
        id < a0.len() ==> #[trigger] a1[id as int] == if unique(a0, id as int) && h0.contains(id) {
            None
        } else {
            a0[id as int]
        }
    &&& forall|id: usize| #[trigger]
        occurrences(h1, id) == occurrences(h0, id) - if ids_of(freed).contains(id) {
            1int
        } else {
            0int
        }
}

/// What a sweep that spares the slots in `spare` leaves behind. It is a
/// sweep as [`swept`] describes it, but that a value whose slot is spared
/// stays where it is, whatever refers to it.
pub open spec fn swept_but<T>(
    a0: Seq<Option<Slot<T>>>,
    h0: Seq<usize>,
    spare: Set<usize>,
    a1: Seq<Option<Slot<T>>>,
    h1: Seq<usize>,
    freed: Seq<(usize, T)>,
) -> bool {
    &&& a0.len() <= usize::MAX
    &&& ids_of(freed).no_duplicates()
    &&& in_order_of(h0, ids_of(freed))
    &&& forall|id: usize| #[trigger]
        ids_of(freed).contains(id) <==> h0.contains(id) && ripe(a0, spare, id)
    &&& forall|k: int|
        0 <= k < freed.len() ==> a0[(#[trigger] freed[k]).0 as int] == Some(
            Slot { value: freed[k].1, refs: 1 },
        )
    &&& a1.len() == a0.len()
    &&& forall|id: usize|
        id < a0.len() ==> #[trigger] a1[id as int] == if ripe(a0, spare, id) && h0.contains(id) {
            None
        } else {
            a0[id as int]
        }
    &&& forall|id: usize| #[trigger]
        occurrences(h1, id) == occurrences(h0, id) - if ids_of(freed).contains(id) {
            1int
        } else {
            0int
        }
}

/// Slot `id` holds a value that exactly one reference points at, and is not
/// spared.
pub open spec fn ripe<T>(a: Seq<Option<Slot<T>>>, spare: Set<usize>, id: usize) -> bool {
    unique(a, id as int) && !spare.contains(id)
}

impl<T> View for Arena<T> {
    type V = Seq<Option<Slot<T>>>;

    closed spec fn view(&self) -> Seq<Option<Slot<T>>> {
        self.slots@
    }
}

impl<T> Arena<T> {
    /// An arena without slots.
    pub fn new() -> (r: Arena<T>)
        ensures
            r@ == Seq::<Option<Slot<T>>>::empty(),
    {
        Arena { slots: Vec::new() }
    }

    /// The number of slots ever made, which is the number the next one gets.
    pub fn len(&self) -> (n: usize)
        ensures
            n == self@.len(),
    {
        self.slots.len()
    }

    /// The number of slots is one that a slot number can be.
    pub proof fn lemma_len_fits(&self)
        ensures
            self@.len() <= usize::MAX,
    {
        let n = self.slots.len();
    }

    /// Stores `value` in a new slot with one reference to it.
    pub fn store(&mut self, value: T) -> (id: usize)
        ensures
            id == old(self)@.len(),
            final(self)@ == old(self)@.push(Some(Slot { value, refs: 1 })),
    {
        let id = self.slots.len();
        self.slots.push(Some(Slot { value, refs: 1 }));
        id
    }

    /// The number of references to slot `id`; zero for a dead slot.
    pub fn count(&self, id: usize) -> (n: u64)
        ensures
            n == refs(self@, id as int),
    {
        if id < self.slots.len() {
            match &self.slots[id] {
                Some(slot) => slot.refs,
                None => 0,
            }
        } else {
            0
        }
    }

    /// The value in slot `id`.
    pub fn get(&self, id: usize) -> (r: Option<&T>)
        ensures
            r.is_some() == live(self@, id as int),
            r.is_some() ==> *r.unwrap() == self@[id as int].unwrap().value,
    {
        if id < self.slots.len() {
            match &self.slots[id] {
                Some(slot) => Some(&slot.value),
                None => None,
            }
        } else {
            None
        }
    }

    /// The value in slot `id`, to be changed in place. The count stays.
    pub fn get_mut(&mut self, id: usize) -> (r: Option<&mut T>)
        ensures
            match r {
                Some(value) => live(old(self)@, id as int) && *value == old(self)@[id as int].unwrap().value
                    && final(self)@ == old(self)@.update(
                    id as int,
                    Some(Slot { value: *final(value), refs: old(self)@[id as int].unwrap().refs }),
                ),
                None => !live(old(self)@, id as int) && final(self)@ == old(self)@,
            },
    {
        if id < self.slots.len() {
            match &mut self.slots[id] {
                Some(slot) => Some(&mut slot.value),
                None => None,
            }
        } else {
            None
        }
    }

    /// Counts one more reference to slot `id`. Fails, and changes nothing,
    /// on a dead slot and on a count that is at its limit.
    pub fn retain(&mut self, id: usize) -> (ok: bool)
        ensures
            ok == can_retain(old(self)@, id as int),
            final(self)@ == retained(old(self)@, id as int),
    {
        if id < self.slots.len() {
            match self.slots[id].take() {
                Some(slot) => {
                    let Slot { value, refs } = slot;
                    if refs < u64::MAX {
                        self.slots[id] = Some(Slot { value, refs: refs + 1 });
                        true
                    } else {
                        self.slots[id] = Some(Slot { value, refs });
                        assert(self.slots@ =~= old(self).slots@);
                        false
                    }
                },
                None => {
                    assert(self.slots@ =~= old(self).slots@);
                    false
                },
            }
        } else {
            false
        }
    }

    /// Gives one reference to slot `id` back. When it was the last, the slot
    /// is emptied and its value returned.
    pub fn release(&mut self, id: usize) -> (last: Option<T>)
        ensures
            final(self)@ == released(old(self)@, id as int),
            last == if live(old(self)@, id as int) && old(self)@[id as int].unwrap().refs <= 1 {
                Some(old(self)@[id as int].unwrap().value)
            } else {
                None
            },
    {
        if id < self.slots.len() {
            match self.slots[id].take() {
                Some(slot) => {
                    let Slot { value, refs } = slot;
                    if refs <= 1 {
                        Some(value)
                    } else {
                        self.slots[id] = Some(Slot { value, refs: refs - 1 });
                        None
                    }
                },
                None => {
                    assert(self.slots@ =~= old(self).slots@);
                    None
                },
            }
        } else {
            None
        }
    }

    /// Takes the value out of slot `id` if exactly one reference points at it.
    pub fn take_unique(&mut self, id: usize) -> (value: Option<T>)
        ensures
            unique(old(self)@, id as int) ==> value == Some(old(self)@[id as int].unwrap().value)
                && final(self)@ == old(self)@.update(id as int, None),
            !unique(old(self)@, id as int) ==> value.is_none() && final(self)@ == old(self)@,
    {
        if self.count(id) == 1 {
            match self.slots[id].take() {
                Some(slot) => Some(slot.value),
                None => None,
            }
        } else {
            None
        }
    }

    /// Stores `value` in a new slot with two references to it: one that is
    /// noted at the end of `list`, and one for the caller.
    pub fn create(&mut self, list: &mut Vec<usize>, value: T) -> (id: usize)
        ensures
            id == old(self)@.len(),
            final(self)@ == created(old(self)@, value),
            final(list)@ == old(list)@.push(id),
    {
        let id = self.store(value);
        list.push(id);
        let _ = self.retain(id);
        assert(self@ =~= created(old(self)@, value));
        id
    }

    /// Takes one reference to slot `id` and notes it at the end of `list`.
    /// Where no reference can be counted, nothing is noted.
    pub fn note(&mut self, list: &mut Vec<usize>, id: usize) -> (ok: bool)
        ensures
            ok == can_retain(old(self)@, id as int),
            (final(self)@, final(list)@) == noted(old(self)@, old(list)@, id),
    {
        if self.retain(id) {
            list.push(id);
            true
        } else {
            false
        }
    }

    /// Takes one reference for each entry of `src`, first to last, and notes
    /// each reference taken at the end of `dst`.
    pub fn retain_all(&mut self, dst: &mut Vec<usize>, src: &Vec<usize>)
        ensures
            (final(self)@, final(dst)@) == absorbed(old(self)@, old(dst)@, src@),
    {
        let n = src.len();
        let mut i: usize = 0;
        assert(src@.subrange(0, n as int) =~= src@);
        while i < n
            invariant
                i <= n,
                n == src@.len(),
                absorbed(self@, dst@, src@.subrange(i as int, n as int)) == absorbed(
                    old(self)@,
                    old(dst)@,
                    src@,
                ),
            decreases n - i,
        {
            let id = src[i];
            let ghost rest = src@.subrange(i as int, n as int);
            assert(rest[0] == id);
            assert(rest.drop_first() =~= src@.subrange(i as int + 1, n as int));
            let _ = self.note(dst, id);
            i = i + 1;
        }
        assert(src@.subrange(n as int, n as int) =~= Seq::<usize>::empty());
    }

    /// Gives every reference in `held` back, first to last, and empties the
    /// list. A value whose last reference this was is dropped with its slot.
    pub fn release_all(&mut self, held: &mut Vec<usize>)
        ensures
            final(self)@ == released_all(old(self)@, old(held)@),
            final(held)@ == Seq::<usize>::empty(),
    {
        let n = held.len();
        let mut i: usize = 0;
        assert(held@.subrange(0, n as int) =~= held@);
        while i < n
            invariant
                i <= n,
                n == held@.len(),
                held@ == old(held)@,
                released_all(self@, held@.subrange(i as int, n as int)) == released_all(
                    old(self)@,
                    old(held)@,
                ),
            decreases n - i,
        {
            let id = held[i];
            let ghost rest = held@.subrange(i as int, n as int);
            assert(rest[0] == id);
            assert(rest.drop_first() =~= held@.subrange(i as int + 1, n as int));
            let _ = self.release(id);
            i = i + 1;
        }
        assert(held@.subrange(n as int, n as int) =~= Seq::<usize>::empty());
        held.clear();
    }

    /// Hands out every value whose only reference is an entry of `held`, and
    /// takes that entry off the list.
    pub fn sweep(&mut self, held: &mut Vec<usize>) -> (freed: Vec<(usize, T)>)
        ensures
            swept(old(self)@, old(held)@, final(self)@, final(held)@, freed@),
    {
        let nothing: Vec<usize> = Vec::new();
        assert(nothing@.to_set() =~= Set::<usize>::empty());
        self.sweep_sparing(held, &nothing)
    }

    /// Hands out every value whose only reference is an entry of `held`, and
    /// takes that entry off the list, but for the values in the slots
    /// `spared`, which stay. The entries are first marked, then taken out
    /// from the last mark to the first, each by moving the list's last entry
    /// into its place.
    pub fn sweep_sparing(&mut self, held: &mut Vec<usize>, spared: &Vec<usize>) -> (freed: Vec<
        (usize, T),
    >)
        ensures
            swept_but(
                old(self)@,
                old(held)@,
                spared@.to_set(),
                final(self)@,
                final(held)@,
                freed@,
            ),
    {
        let ghost spare = spared@.to_set();
        let mut freed: Vec<(usize, T)> = Vec::new();
        let mut marks: Vec<usize> = Vec::new();
        let n = held.len();
        let _ = self.slots.len();
        let mut i: usize = 0;
        while i < n
            invariant
                i <= n,
                n == held@.len(),
                held@ == old(held)@,
                spare == spared@.to_set(),
                self@.len() == old(self)@.len(),
                marks@.len() == freed@.len(),
                forall|k: int| 0 <= k < marks@.len() ==> #[trigger] marks@[k] < i,
                forall|j: int, k: int|
                    0 <= j < k < marks@.len() ==> #[trigger] marks@[j] < #[trigger] marks@[k],
                forall|k: int|
                    0 <= k < marks@.len() ==> (#[trigger] freed@[k]).0 == held@[marks@[k] as int],
                forall|k: int|
                    0 <= k < freed@.len() ==> old(self)@[(#[trigger] freed@[k]).0 as int] == Some(
                        Slot { value: freed@[k].1, refs: 1 },
                    ) && freed@[k].0 < old(self)@.len(),
                ids_of(freed@).no_duplicates(),
                forall|id: usize| #[trigger]
                    ids_of(freed@).contains(id) <==> seen(held@, i as int, id) && ripe(old(self)@, spare, id),
                forall|p: usize|
                    p < self@.len() ==> #[trigger] self@[p as int] == if ids_of(freed@).contains(p) {
                        None
                    } else {
                        old(self)@[p as int]
                    },
            decreases n - i,
        {
            let id = held[i];
            let ghost before = freed@;
            let ghost arena_before = self@;
            let kept = stands_in(spared, id);
            assert(kept == spare.contains(id));
            let taken = if kept {
                None
            } else {
                self.take_unique(id)
            };
            match taken {
                Some(value) => {
                    freed.push((id, value));
                    marks.push(i);
                    proof {
                        let ids0 = ids_of(before);
                        let ids1 = ids_of(freed@);
                        assert(ids1 =~= ids0.push(id));
                        assert(!ids0.contains(id));
                        assert(ids1.no_duplicates());
                        assert forall|x: usize| #[trigger]
                            ids1.contains(x) <==> seen(held@, i as int + 1, x) && ripe(old(self)@, spare, x) by {
                            lemma_seen_step(held@, i as int, x);
                            lemma_contains_push(ids0, id, x);
                        }
                        assert forall|p: usize| p < self@.len() implies #[trigger] self@[p as int]
                            == if ids1.contains(p) {
                            None
                        } else {
                            old(self)@[p as int]
                        } by {
                            lemma_contains_push(ids0, id, p);
                        }
                    }
                },
                None => {
                    proof {
                        assert forall|x: usize| #[trigger]
                            ids_of(freed@).contains(x) <==> seen(held@, i as int + 1, x) && ripe(old(self)@, spare, x) by {
                            lemma_seen_step(held@, i as int, x);
                        }
                    }
                },
            }
            i = i + 1;
        }
        proof {
            assert forall|id: usize| #[trigger]
                ids_of(freed@).contains(id) <==> held@.contains(id) && ripe(old(self)@, spare, id) by {
                lemma_seen_all(held@, id);
            }
            assert forall|p: usize| p < old(self)@.len() implies #[trigger] self@[p as int]
                == if ripe(old(self)@, spare, p) && held@.contains(p) {
                None
            } else {
                old(self)@[p as int]
            } by {
                lemma_seen_all(held@, p);
            }
        }
        let m = marks.len();
        let mut j: usize = m;
        let ghost ids = ids_of(freed@);
        while j > 0
            invariant
                j <= m,
                m == marks@.len(),
                m == ids.len(),
                ids == ids_of(freed@),
                ids.no_duplicates(),
                forall|k: int| 0 <= k < m ==> #[trigger] marks@[k] < n,
                forall|a: int, b: int| 0 <= a < b < m ==> #[trigger] marks@[a] < #[trigger] marks@[b],
                forall|k: int| 0 <= k < m ==> #[trigger] ids[k] == old(held)@[marks@[k] as int],
                n == old(held)@.len(),
                (if j < m {
                    marks@[j as int] as int
                } else {
                    n as int
                }) <= held@.len(),
                forall|p: int|
                    0 <= p < (if j < m {
                        marks@[j as int] as int
                    } else {
                        n as int
                    }) ==> #[trigger] held@[p] == old(held)@[p],
                forall|id: usize| #[trigger]
                    occurrences(held@, id) == occurrences(old(held)@, id) - if dropped(
                        ids,
                        j as int,
                        id,
                    ) {
                        1int
                    } else {
                        0int
                    },
            decreases j,
        {
            let ghost upper = j;
            j = j - 1;
            let t = marks[j];
            let ghost list = held@;
            assert(list[t as int] == ids[j as int]);
            let _ = held.swap_remove(t);
            proof {
                assert forall|id: usize| #[trigger]
                    occurrences(held@, id) == occurrences(old(held)@, id) - if dropped(
                        ids,
                        j as int,
                        id,
                    ) {
                        1int
                    } else {
                        0int
                    } by {
                    lemma_swap_remove_occurrences(list, t as int, id);
                    lemma_dropped_step(ids, j as int, id);
                }
            }
        }
        proof {
            let places = marks@.map_values(|m: usize| m as int);
            assert(stand_at(old(held)@, ids, places));
            assert forall|id: usize| #[trigger]
                occurrences(held@, id) == occurrences(old(held)@, id) - if ids.contains(id) {
                    1int
                } else {
                    0int
                } by {
                lemma_dropped_all(ids, id);
            }
        }
        freed
    }
}

/// Whether `id` stands in `list`.
fn stands_in(list: &Vec<usize>, id: usize) -> (found: bool)
    ensures
        found == list@.contains(id),
{
    let n = list.len();
    let mut i: usize = 0;
    while i < n
        invariant
            i <= n,
            n == list@.len(),
            forall|k: int| 0 <= k < i ==> list@[k] != id,
        decreases n - i,
    {
        if list[i] == id {
            return true;
        }
        i = i + 1;
    }
    false
}

/// `id` stands among the first `i` entries of `held`.
pub open spec fn seen(held: Seq<usize>, i: int, id: usize) -> bool {
    exists|p: int| 0 <= p < i && p < held.len() && #[trigger] held[p] == id
}

/// `id` stands in `ids` at position `j` or later.
pub open spec fn dropped(ids: Seq<usize>, j: int, id: usize) -> bool {
    exists|k: int| j <= k < ids.len() && 0 <= k && #[trigger] ids[k] == id
}

proof fn lemma_seen_step(held: Seq<usize>, i: int, id: usize)
    requires
        0 <= i < held.len(),
    ensures
        seen(held, i + 1, id) <==> seen(held, i, id) || held[i] == id,
{
    if seen(held, i + 1, id) {
        let p = choose|p: int| 0 <= p < i + 1 && p < held.len() && #[trigger] held[p] == id;
        if p < i {
            assert(seen(held, i, id));
        }
    }
    if seen(held, i, id) {
        let p = choose|p: int| 0 <= p < i && p < held.len() && #[trigger] held[p] == id;
        assert(0 <= p < i + 1 && held[p] == id);
    }
    if held[i] == id {
        assert(0 <= i < i + 1 && held[i] == id);
    }
}

proof fn lemma_seen_all(held: Seq<usize>, id: usize)
    ensures
        seen(held, held.len() as int, id) <==> held.contains(id),
{
    if seen(held, held.len() as int, id) {
        let p = choose|p: int| 0 <= p < held.len() && p < held.len() && #[trigger] held[p] == id;
        assert(held[p] == id);
    }
    if held.contains(id) {
        let p = choose|p: int| 0 <= p < held.len() && held[p] == id;
        assert(0 <= p < held.len() && held[p] == id);
    }
}

proof fn lemma_contains_push(s: Seq<usize>, last: usize, x: usize)
    ensures
        s.push(last).contains(x) <==> s.contains(x) || last == x,
{
    let t = s.push(last);
    if t.contains(x) {
        let p = choose|p: int| 0 <= p < t.len() && t[p] == x;
        if p < s.len() {
            assert(s[p] == x);
        }
    }
    if s.contains(x) {
        let p = choose|p: int| 0 <= p < s.len() && s[p] == x;
        assert(t[p] == x);
    }
    if last == x {
        assert(t[s.len() as int] == x);
    }
}

proof fn lemma_dropped_step(ids: Seq<usize>, j: int, id: usize)
    requires
        0 <= j < ids.len(),
        ids.no_duplicates(),
    ensures
        dropped(ids, j, id) <==> dropped(ids, j + 1, id) || ids[j] == id,
        !(dropped(ids, j + 1, id) && ids[j] == id),
{
    if dropped(ids, j, id) {
        let k = choose|k: int| j <= k < ids.len() && 0 <= k && #[trigger] ids[k] == id;
        if k > j {
            assert(dropped(ids, j + 1, id));
        }
    }
    if dropped(ids, j + 1, id) {
        let k = choose|k: int| j + 1 <= k < ids.len() && 0 <= k && #[trigger] ids[k] == id;
        assert(j <= k < ids.len() && ids[k] == id);
        assert(ids[j] != ids[k]);
    }
    if ids[j] == id {
        assert(j <= j < ids.len() && ids[j] == id);
    }
}

proof fn lemma_dropped_all(ids: Seq<usize>, id: usize)
    ensures
        dropped(ids, 0, id) <==> ids.contains(id),
{
    if dropped(ids, 0, id) {
        let k = choose|k: int| 0 <= k < ids.len() && 0 <= k && #[trigger] ids[k] == id;
        assert(ids[k] == id);
    }
    if ids.contains(id) {
        let k = choose|k: int| 0 <= k < ids.len() && ids[k] == id;
        assert(0 <= k < ids.len() && 0 <= k && ids[k] == id);
    }
}

/// Taking entry `i` out of a list by moving the last entry into its place
/// lowers the count of that entry's value by one and keeps every other count.
proof fn lemma_swap_remove_occurrences(s: Seq<usize>, i: int, x: usize)
    requires
        0 <= i < s.len(),
    ensures
        occurrences(s.update(i, s.last()).drop_last(), x) == occurrences(s, x) - if s[i] == x {
            1int
        } else {
            0int
        },
{
    broadcast use vstd::multiset::group_multiset_axioms;

    let t = s.update(i, s.last());
    to_multiset_update(s, i, s.last());
    assert(t.drop_last() =~= t.remove(t.len() - 1));
    to_multiset_remove(t, t.len() - 1);
    assert(t.last() == s.last());
    vstd::seq_lib::to_multiset_contains(s, s[i]);
    assert(s.contains(s[i]));
}

/// A sweep that follows a sweep, with nothing done to the slots or the list
/// in between, hands out nothing and leaves both as it found them.
pub proof fn lemma_second_sweep_is_idle<T>(
    a0: Seq<Option<Slot<T>>>,
    h0: Seq<usize>,
    a1: Seq<Option<Slot<T>>>,
    h1: Seq<usize>,
    first: Seq<(usize, T)>,
    a2: Seq<Option<Slot<T>>>,
    h2: Seq<usize>,
    second: Seq<(usize, T)>,
)
    requires
        swept(a0, h0, a1, h1, first),
        swept(a1, h1, a2, h2, second),
    ensures
        second.len() == 0,
        a2 == a1,
        forall|id: usize| occurrences(h2, id) == occurrences(h1, id),
{
    assert forall|id: usize| !(h1.contains(id) && unique(a1, id as int)) by {
        if h1.contains(id) && unique(a1, id as int) {
            vstd::seq_lib::to_multiset_contains(h1, id);
            vstd::seq_lib::to_multiset_contains(h0, id);
            assert(a1[id as int].is_some());
            assert(a1[id as int] == a0[id as int]);
            assert(!h0.contains(id));
            assert(occurrences(h1, id) == occurrences(h0, id) - if ids_of(first).contains(id) {
                1int
            } else {
                0int
            });
        }
    }
    if second.len() > 0 {
        let id = ids_of(second)[0];
        assert(ids_of(second).contains(id));
    }
    assert forall|id: usize| occurrences(h2, id) == occurrences(h1, id) by {
        assert(occurrences(h2, id) == occurrences(h1, id) - if ids_of(second).contains(id) {
            1int
        } else {
            0int
        });
    }
    assert forall|i: int| 0 <= i < a1.len() implies a2[i] == a1[i] by {
        let id = i as usize;
        assert(a2[id as int] == a1[id as int]);
    }
    assert(a2 =~= a1);
}

/// What is referred to by more than the list that is swept survives the
/// sweep untouched.
pub proof fn lemma_referenced_survives_sweep<T>(
    a0: Seq<Option<Slot<T>>>,
    h0: Seq<usize>,
    a1: Seq<Option<Slot<T>>>,
    h1: Seq<usize>,
    freed: Seq<(usize, T)>,
    id: usize,
)
    requires
        swept(a0, h0, a1, h1, freed),
        refs(a0, id as int) >= 2,
    ensures
        a1[id as int] == a0[id as int],
        live(a1, id as int),
        !ids_of(freed).contains(id),
        occurrences(h1, id) == occurrences(h0, id),
{
    assert(!unique(a0, id as int));
    assert(occurrences(h1, id) == occurrences(h0, id) - if ids_of(freed).contains(id) {
        1int
    } else {
        0int
    });
}

/// A slot that a sweep spares is left as it was, and so is the list's
/// account of it.
pub proof fn lemma_spared_survives_sweep<T>(
    a0: Seq<Option<Slot<T>>>,
    h0: Seq<usize>,
    spare: Set<usize>,
    a1: Seq<Option<Slot<T>>>,
    h1: Seq<usize>,
    freed: Seq<(usize, T)>,
    id: usize,
)
    requires
        swept_but(a0, h0, spare, a1, h1, freed),
        spare.contains(id),
        id < a0.len(),
    ensures
        a1[id as int] == a0[id as int],
        !ids_of(freed).contains(id),
        occurrences(h1, id) == occurrences(h0, id),
{
    assert(!ripe(a0, spare, id));
    assert(occurrences(h1, id) == occurrences(h0, id) - if ids_of(freed).contains(id) {
        1int
    } else {
        0int
    });
}

/// A sparing sweep that follows a sparing sweep, with nothing done to the
/// slots or the list in between, hands out nothing and leaves both as it
/// found them, as long as it spares what the first one spared.
pub proof fn lemma_second_sparing_sweep_is_idle<T>(
    a0: Seq<Option<Slot<T>>>,
    h0: Seq<usize>,
    s0: Set<usize>,
    a1: Seq<Option<Slot<T>>>,
    h1: Seq<usize>,
    first: Seq<(usize, T)>,
    s1: Set<usize>,
    a2: Seq<Option<Slot<T>>>,
    h2: Seq<usize>,
    second: Seq<(usize, T)>,
)
    requires
        swept_but(a0, h0, s0, a1, h1, first),
        swept_but(a1, h1, s1, a2, h2, second),
        forall|id: usize| s0.contains(id) && live(a1, id as int) ==> s1.contains(id),
    ensures
        second.len() == 0,
        a2 == a1,
        forall|id: usize| occurrences(h2, id) == occurrences(h1, id),
{
    assert forall|id: usize| !(h1.contains(id) && ripe(a1, s1, id)) by {
        if h1.contains(id) && ripe(a1, s1, id) {
            vstd::seq_lib::to_multiset_contains(h1, id);
            vstd::seq_lib::to_multiset_contains(h0, id);
            assert(a1[id as int].is_some());
            assert(a1[id as int] == a0[id as int]);
            assert(!(ripe(a0, s0, id) && h0.contains(id)));
            assert(occurrences(h1, id) == occurrences(h0, id) - if ids_of(first).contains(id) {
                1int
            } else {
                0int
            });
        }
    }
    if second.len() > 0 {
        let id = ids_of(second)[0];
        assert(ids_of(second).contains(id));
    }
    assert forall|id: usize| occurrences(h2, id) == occurrences(h1, id) by {
        assert(occurrences(h2, id) == occurrences(h1, id) - if ids_of(second).contains(id) {
            1int
        } else {
            0int
        });
    }
    assert forall|i: int| 0 <= i < a1.len() implies a2[i] == a1[i] by {
        let id = i as usize;
        assert(a2[id as int] == a1[id as int]);
    }
    assert(a2 =~= a1);
}

} // verus!
