//! What a submission does to each mapped buffer that it touches, whatever
//! else the batch touches: memory that is mapped for a time is unmapped
//! once and stays unmapped; memory that stays mapped is flushed once where
//! the CPU has written to it, and notes the one fence that is placed.

use vstd::prelude::*;
use crate::arena::{created, live, refs, released};
use crate::command::{mapped, marked, marked_all};
use crate::gl::call::Call;
use crate::gl::device::{noted_fence, refusal, MappingKind};
use crate::gl::info::PrivateCaps;
use crate::gl::native;
use crate::gl::submit::{
    after_calls, after_step, before_step, fence_call, fence_due, fenced, fenced_both, flush_step,
    flushed_all, gate_of, readied, signal_step, submitted, taken, track_step, unmap_step,
    unmapped_all, Buffers, Fences,
};
use crate::gl::Backend;
use crate::handle::{HeapView, ManagerView};
use crate::mapping::Error;

verus! {

/// Marking mappings changes, of a buffer with a mapping, nothing but in
/// whose hands the mapping is.
pub proof fn lemma_marked_all(a: Buffers, ids: Seq<usize>, accessible: bool, id: int)
    ensures
        marked_all(a, ids, accessible).len() == a.len(),
        mapped(marked_all(a, ids, accessible), id) == mapped(a, id),
        mapped(a, id) ==> gate_of(marked_all(a, ids, accessible), id) == gate_of(a, id)
            && marked_all(a, ids, accessible)[id].unwrap().value.mapping.unwrap().accessible
            == (if within(ids, id) {
            accessible
        } else {
            a[id].unwrap().value.mapping.unwrap().accessible
        }),
    decreases ids.len(),
{
    if ids.len() > 0 {
        let first = marked(a, ids[0] as int, accessible);
        lemma_marked_all(first, ids.drop_first(), accessible, id);
        lemma_within_step(ids, id);
    }
}

/// How often the buffer in slot `id` is unmapped when the buffers in `ids`
/// are unmapped in turn.
pub open spec fn unmaps_for(a: Buffers, ids: Seq<usize>, id: int) -> nat
    decreases ids.len(),
{
    if ids.len() == 0 {
        0
    } else {
        (if ids[0] as int == id && unmap_step(a, id).1.len() > 0 {
            1nat
        } else {
            0nat
        }) + unmaps_for(unmap_step(a, ids[0] as int).0, ids.drop_first(), id)
    }
}

/// `id` stands in `ids`.
pub open spec fn within(ids: Seq<usize>, id: int) -> bool {
    exists|k: int| 0 <= k < ids.len() && ids[k] as int == id
}

proof fn lemma_within_step(ids: Seq<usize>, id: int)
    requires
        ids.len() > 0,
    ensures
        within(ids, id) <==> ids[0] as int == id || within(ids.drop_first(), id),
{
    let rest = ids.drop_first();
    if within(ids, id) {
        let k = choose|k: int| 0 <= k < ids.len() && ids[k] as int == id;
        if k > 0 {
            assert(rest[k - 1] as int == id);
        }
    }
    if within(rest, id) {
        let k = choose|k: int| 0 <= k < rest.len() && rest[k] as int == id;
        assert(ids[k + 1] as int == id);
    }
}

proof fn lemma_within_concat(a: Seq<usize>, b: Seq<usize>, id: int)
    ensures
        within(a + b, id) <==> within(a, id) || within(b, id),
{
    let all = a + b;
    if within(all, id) {
        let k = choose|k: int| 0 <= k < all.len() && all[k] as int == id;
        if k < a.len() {
            assert(a[k] as int == id);
        } else {
            assert(b[k - a.len()] as int == id);
        }
    }
    if within(a, id) {
        let k = choose|k: int| 0 <= k < a.len() && a[k] as int == id;
        assert(all[k] as int == id);
    }
    if within(b, id) {
        let k = choose|k: int| 0 <= k < b.len() && b[k] as int == id;
        assert(all[a.len() + k] as int == id);
    }
}

/// Unmapping the buffers in `ids` in turn unmaps each of them that is
/// mapped exactly once, leaves it unmapped, and changes nothing else of any
/// mapping.
pub proof fn lemma_unmapped_all(a: Buffers, ids: Seq<usize>, id: int)
    ensures
        unmapped_all(a, ids).0.len() == a.len(),
        mapped(unmapped_all(a, ids).0, id) == mapped(a, id),
        mapped(a, id) ==> gate_of(unmapped_all(a, ids).0, id).kind == gate_of(a, id).kind
            && unmapped_all(a, ids).0[id].unwrap().value.mapping.unwrap().accessible
            == a[id].unwrap().value.mapping.unwrap().accessible && gate_of(
            unmapped_all(a, ids).0,
            id,
        ).pointer == (if within(ids, id) {
            0usize
        } else {
            gate_of(a, id).pointer
        }),
        unmaps_for(a, ids, id) == (if within(ids, id) && mapped(a, id) && gate_of(a, id).pointer
            != 0 {
            1nat
        } else {
            0nat
        }),
    decreases ids.len(),
{
    if ids.len() > 0 {
        let first = unmap_step(a, ids[0] as int).0;
        lemma_unmapped_all(first, ids.drop_first(), id);
        lemma_within_step(ids, id);
    }
}

/// Where memory is mapped for a time only, a submission unmaps each mapped
/// buffer that its commands read or write exactly once, before any command
/// is replayed. After the submission the memory is not mapped: the CPU is
/// refused it until it was mapped again.
pub proof fn lemma_temporary_mapping_is_unmapped_once(
    h: HeapView<Backend>,
    m: ManagerView,
    reads: Seq<usize>,
    writes: Seq<usize>,
    caps: PrivateCaps,
    fence: Option<usize>,
    id: int,
)
    requires
        !caps.buffer_storage_supported,
        mapped(h.buffers, id),
        gate_of(h.buffers, id).pointer != 0,
        within(reads + writes, id),
    ensures
        unmaps_for(taken(h.buffers, reads, writes), reads, id) + unmaps_for(
            unmapped_all(taken(h.buffers, reads, writes), reads).0,
            writes,
            id,
        ) == 1,
        mapped(submitted(h, m, reads, writes, caps, fence).0.buffers, id),
        gate_of(submitted(h, m, reads, writes, caps, fence).0.buffers, id).pointer == 0,
        refusal(submitted(h, m, reads, writes, caps, fence).0.buffers, id) == Some(Error::NotMapped),
{
    let t0 = marked_all(h.buffers, reads, false);
    let t = taken(h.buffers, reads, writes);
    lemma_marked_all(h.buffers, reads, false, id);
    lemma_marked_all(t0, writes, false, id);
    let u0 = unmapped_all(t, reads).0;
    lemma_unmapped_all(t, reads, id);
    let u = unmapped_all(u0, writes).0;
    lemma_unmapped_all(u0, writes, id);
    lemma_within_concat(reads, writes, id);
    assert(readied(t, reads, writes, false).0 == u);
    let before = before_step(h, reads, writes, false);
    let after = after_step(before, m, reads, writes, false);
    assert(after.0 == before);
    let signalled = signal_step(after.0, after.1, caps.sync_supported, fence);
    assert(signalled.0.buffers == u);
    let r0 = marked_all(u, reads, true);
    lemma_marked_all(u, reads, true, id);
    lemma_marked_all(r0, writes, true, id);
}

/// How often the buffer in slot `id` is flushed when the buffers in `ids`
/// are flushed in turn.
pub open spec fn flushes_for(a: Buffers, ids: Seq<usize>, id: int) -> nat
    decreases ids.len(),
{
    if ids.len() == 0 {
        0
    } else {
        (if ids[0] as int == id && flush_step(a, id).1.len() > 0 {
            1nat
        } else {
            0nat
        }) + flushes_for(flush_step(a, ids[0] as int).0, ids.drop_first(), id)
    }
}

/// The CPU has written to the mapped memory of the buffer in slot `id`
/// since it was last flushed.
pub open spec fn written(a: Buffers, id: int) -> bool {
    mapped(a, id) && match gate_of(a, id).kind {
        MappingKind::Persistent(status) => status.cpu_wrote,
        MappingKind::Temporary => false,
    }
}

/// Flushing the buffers in `ids` in turn flushes each of them that the CPU
/// has written to exactly once, notes the write as flushed, and changes
/// nothing else of any mapping. No buffer is unmapped.
pub proof fn lemma_flushed_all(a: Buffers, ids: Seq<usize>, id: int)
    ensures
        flushed_all(a, ids).0.len() == a.len(),
        mapped(flushed_all(a, ids).0, id) == mapped(a, id),
        mapped(a, id) ==> gate_of(flushed_all(a, ids).0, id).pointer == gate_of(a, id).pointer
            && noted_fence(gate_of(flushed_all(a, ids).0, id)) == noted_fence(gate_of(a, id))
            && (gate_of(flushed_all(a, ids).0, id).kind is Persistent) == (gate_of(
            a,
            id,
        ).kind is Persistent) && flushed_all(
            a,
            ids,
        ).0[id].unwrap().value.mapping.unwrap().accessible
            == a[id].unwrap().value.mapping.unwrap().accessible,
        written(flushed_all(a, ids).0, id) == (written(a, id) && !within(ids, id)),
        flushes_for(a, ids, id) == (if within(ids, id) && written(a, id) {
            1nat
        } else {
            0nat
        }),
        forall|k: int|
            0 <= k < flushed_all(a, ids).1.len() ==> !(#[trigger] flushed_all(
                a,
                ids,
            ).1[k] is UnmapBuffer),
    decreases ids.len(),
{
    if ids.len() > 0 {
        let first = flush_step(a, ids[0] as int);
        lemma_flushed_all(first.0, ids.drop_first(), id);
        lemma_within_step(ids, id);
        let rest = flushed_all(first.0, ids.drop_first());
        assert forall|k: int| 0 <= k < (first.1 + rest.1).len() implies !(#[trigger] (first.1
            + rest.1)[k] is UnmapBuffer) by {
            if k >= first.1.len() {
                assert((first.1 + rest.1)[k] == rest.1[k - first.1.len()]);
            }
        }
    }
}

/// The mapping of the buffer in slot `id` stays mapped.
pub open spec fn persistent(a: Buffers, id: int) -> bool {
    mapped(a, id) && gate_of(a, id).kind is Persistent
}

/// Noting a fence on the buffers in `ids` in turn leaves the fence noted on
/// each of them whose memory stays mapped, keeps the fence alive, and
/// changes nothing else of any mapping.
pub proof fn lemma_fenced(b: Buffers, f: Fences, ids: Seq<usize>, fence: usize, id: int)
    requires
        live(f, fence as int),
        refs(f, fence as int) >= 1,
        refs(f, fence as int) + ids.len() < u64::MAX,
    ensures
        fenced(b, f, ids, fence).0.len() == b.len(),
        live(fenced(b, f, ids, fence).1, fence as int),
        refs(f, fence as int) <= refs(fenced(b, f, ids, fence).1, fence as int) <= refs(
            f,
            fence as int,
        ) + ids.len(),
        mapped(fenced(b, f, ids, fence).0, id) == mapped(b, id),
        persistent(fenced(b, f, ids, fence).0, id) == persistent(b, id),
        mapped(b, id) ==> gate_of(fenced(b, f, ids, fence).0, id).pointer == gate_of(b, id).pointer
            && written(fenced(b, f, ids, fence).0, id) == written(b, id),
        persistent(b, id) ==> noted_fence(gate_of(fenced(b, f, ids, fence).0, id)) == (if within(
            ids,
            id,
        ) {
            Some(fence)
        } else {
            noted_fence(gate_of(b, id))
        }),
    decreases ids.len(),
{
    if ids.len() > 0 {
        let first = track_step(b, f, ids[0] as int, fence);
        assert(live(first.1, fence as int));
        assert(refs(f, fence as int) <= refs(first.1, fence as int) <= refs(f, fence as int) + 1);
        lemma_fenced(first.0, first.1, ids.drop_first(), fence, id);
        lemma_within_step(ids, id);
    }
}

/// The number of calls in `calls` that place a fence.
pub open spec fn fences_in(calls: Seq<Call>) -> nat
    decreases calls.len(),
{
    if calls.len() == 0 {
        0
    } else {
        (if calls[0] is FenceSync {
            1nat
        } else {
            0nat
        }) + fences_in(calls.drop_first())
    }
}

/// Where memory stays mapped, a submission flushes each buffer that its
/// commands read exactly once if the CPU has written to it, and not at all
/// otherwise, before any command is replayed; it unmaps nothing. Behind the
/// batch exactly one fence is placed, in a new slot, and every buffer that
/// the commands read or write notes that fence afterwards, with its memory
/// still mapped and its writes flushed.
pub proof fn lemma_persistent_mapping_is_flushed_and_fenced_once(
    h: HeapView<Backend>,
    m: ManagerView,
    reads: Seq<usize>,
    writes: Seq<usize>,
    caps: PrivateCaps,
    fence: Option<usize>,
    id: int,
)
    requires
        caps.buffer_storage_supported,
        persistent(h.buffers, id),
        within(reads + writes, id),
        h.fences.len() < usize::MAX,
        reads.len() + writes.len() + 2 < u64::MAX,
    ensures
        flushes_for(taken(h.buffers, reads, writes), reads, id) == (if within(reads, id) && written(
            h.buffers,
            id,
        ) {
            1nat
        } else {
            0nat
        }),
        forall|k: int|
            0 <= k < readied(taken(h.buffers, reads, writes), reads, writes, true).1.len() ==> !(
            #[trigger] readied(taken(h.buffers, reads, writes), reads, writes, true).1[k]
                is UnmapBuffer),
        fences_in(after_calls(true, reads, writes, h.fences.len() as usize)) == 1,
        persistent(submitted(h, m, reads, writes, caps, fence).0.buffers, id),
        gate_of(submitted(h, m, reads, writes, caps, fence).0.buffers, id).pointer == gate_of(
            h.buffers,
            id,
        ).pointer,
        noted_fence(gate_of(submitted(h, m, reads, writes, caps, fence).0.buffers, id)) == Some(
            h.fences.len() as usize,
        ),
        within(reads, id) ==> !written(submitted(h, m, reads, writes, caps, fence).0.buffers, id),
        live(submitted(h, m, reads, writes, caps, fence).0.fences, h.fences.len() as int),
{
    let slot = h.fences.len() as usize;
    let t0 = marked_all(h.buffers, reads, false);
    let t = taken(h.buffers, reads, writes);
    lemma_marked_all(h.buffers, reads, false, id);
    lemma_marked_all(t0, writes, false, id);
    lemma_flushed_all(t, reads, id);
    let fl = flushed_all(t, reads).0;
    assert(readied(t, reads, writes, true).0 == fl);
    lemma_within_concat(reads, writes, id);
    assert(reads.len() > 0 || writes.len() > 0) by {
        if within(reads, id) {
            let k = choose|k: int| 0 <= k < reads.len() && reads[k] as int == id;
        }
        if within(writes, id) {
            let k = choose|k: int| 0 <= k < writes.len() && writes[k] as int == id;
        }
    }
    assert(fence_due(true, reads, writes));
    // the one fence
    reveal_with_fuel(fences_in, 3);
    let calls = after_calls(true, reads, writes, slot);
    if writes.len() > 0 {
        assert(calls.drop_first() =~= seq![fence_call(slot)]);
        assert(calls.drop_first().drop_first() =~= Seq::<Call>::empty());
    } else {
        assert(calls.drop_first() =~= Seq::<Call>::empty());
    }
    // noting the fence
    let f0 = created(h.fences, native::Fence(0));
    assert(live(f0, slot as int) && refs(f0, slot as int) == 2);
    lemma_fenced(fl, f0, reads, slot, id);
    let first = fenced(fl, f0, reads, slot);
    lemma_fenced(first.0, first.1, writes, slot, id);
    let both = fenced_both(fl, f0, reads, writes, slot);
    assert(both == fenced(first.0, first.1, writes, slot));
    let before = before_step(h, reads, writes, true);
    assert(before.buffers == fl && before.fences == h.fences);
    let after = after_step(before, m, reads, writes, true);
    assert(after.0.buffers == both.0);
    assert(after.0.fences == released(both.1, slot as int));
    assert(live(after.0.fences, slot as int));
    let signalled = signal_step(after.0, after.1, caps.sync_supported, fence);
    assert(signalled.0.buffers == both.0);
    assert(live(signalled.0.fences, slot as int));
    let r0 = marked_all(both.0, reads, true);
    lemma_marked_all(both.0, reads, true, id);
    lemma_marked_all(r0, writes, true, id);
}

} // verus!
