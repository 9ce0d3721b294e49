//! Submission: what happens around the replay of a batch of command buffers.
//!
//! The steps are taken in a fixed order. The mappings of the buffers that
//! the batch touches are taken out of the CPU's hands. Memory that stays
//! mapped is flushed where the CPU has written to it; memory that is mapped
//! for a time is unmapped. Then the command buffers are replayed. Where
//! memory stays mapped, a fence is placed behind the batch and noted on each
//! buffer touched, so that the CPU waits for it before it touches the memory
//! again. The fence of the caller is signalled, and what the batch refers to
//! is pinned until the next cleanup.

use std::marker::PhantomData;
use vstd::prelude::*;
use crate::arena::{can_retain, created, noted, released, retained, Arena, Slot};
use crate::buffer;
use crate::command::{
    any_busy, mapped, marked_all, AccessGuard, AccessInfo, SubmissionError, SubmissionResult,
};
use crate::gl::call::{
    Call, CLIENT_MAPPED_BUFFER_BARRIER_BIT, SYNC_FLUSH_COMMANDS_BIT, SYNC_GPU_COMMANDS_COMPLETE,
};
use crate::gl::command::{
    calls_of, rejection_of, replayable, Command, Outcome, SubmitInfo,
};
use crate::gl::info::{Features, Limits, PrivateCaps};
use crate::gl::rects::rects;
use crate::gl::{check_calls, reset_calls, reset_rects, CommandQueue, Reset, Share, State};
use crate::handle::{extended, Fence, HeapView, Manager, ManagerView, Producer};
use crate::gl::device::{
    role_to_target, target_of, temporary_ensure_unmapped, unmap_calls, MappingGate, MappingKind,
};
use crate::gl::native;
use crate::gl::Backend;
use crate::mapping::Status;

verus! {

/// The slots of the buffers.
pub type Buffers = Seq<Option<Slot<buffer::Raw<Backend>>>>;

/// The OpenGL part of the mapping of the buffer in slot `id`.
pub open spec fn gate_of(a: Buffers, id: int) -> MappingGate
    recommends
        mapped(a, id),
{
    a[id].unwrap().value.mapping.unwrap().resource
}

/// The slots with `gate` as the OpenGL part of the mapping of the buffer in
/// slot `id`.
pub open spec fn regated(a: Buffers, id: int, gate: MappingGate) -> Buffers
    recommends
        mapped(a, id),
{
    let slot = a[id].unwrap();
    let raw = slot.value;
    a.update(
        id,
        Some(
            Slot {
                value: buffer::Raw {
                    resource: raw.resource,
                    info: raw.info,
                    mapping: Some(
                        crate::mapping::Raw {
                            resource: gate,
                            accessible: raw.mapping.unwrap().accessible,
                        },
                    ),
                },
                refs: slot.refs,
            },
        ),
    )
}

/// The calls that flush the whole of a mapped buffer.
pub open spec fn flush_calls(raw: buffer::Raw<Backend>) -> Seq<Call> {
    seq![
        Call::BindBuffer { target: target_of(raw.info.role), buffer: raw.resource },
        Call::FlushMappedBufferRange {
            target: target_of(raw.info.role),
            offset: 0,
            length: raw.info.size as isize,
        },
    ]
}

/// Flushing the buffer in slot `id`: where its memory stays mapped and the
/// CPU has written to it, it is flushed in one call, and the write is noted
/// as flushed. Any other buffer is passed over.
pub open spec fn flush_step(a: Buffers, id: int) -> (Buffers, Seq<Call>) {
    if mapped(a, id) {
        match gate_of(a, id).kind {
            MappingKind::Persistent(status) => (
                regated(
                    a,
                    id,
                    MappingGate {
                        kind: MappingKind::Persistent(
                            Status { cpu_wrote: false, gpu_access: status.gpu_access },
                        ),
                        pointer: gate_of(a, id).pointer,
                    },
                ),
                if status.cpu_wrote {
                    flush_calls(a[id].unwrap().value)
                } else {
                    seq![]
                },
            ),
            MappingKind::Temporary => (a, seq![]),
        }
    } else {
        (a, seq![])
    }
}

/// Unmapping the buffer in slot `id`: where its memory is mapped, it is
/// unmapped and noted as such. Any other buffer is passed over.
pub open spec fn unmap_step(a: Buffers, id: int) -> (Buffers, Seq<Call>) {
    if mapped(a, id) {
        (
            regated(a, id, MappingGate { kind: gate_of(a, id).kind, pointer: 0 }),
            unmap_calls(
                gate_of(a, id).pointer,
                target_of(a[id].unwrap().value.info.role),
                a[id].unwrap().value.resource,
            ),
        )
    } else {
        (a, seq![])
    }
}

/// Flushing every buffer in `ids`, first to last: the slots this leaves, and
/// the calls in order.
pub open spec fn flushed_all(a: Buffers, ids: Seq<usize>) -> (Buffers, Seq<Call>)
    decreases ids.len(),
{
    if ids.len() == 0 {
        (a, seq![])
    } else {
        let first = flush_step(a, ids[0] as int);
        let rest = flushed_all(first.0, ids.drop_first());
        (rest.0, first.1 + rest.1)
    }
}

/// Unmapping every buffer in `ids`, first to last: the slots this leaves, and
/// the calls in order.
pub open spec fn unmapped_all(a: Buffers, ids: Seq<usize>) -> (Buffers, Seq<Call>)
    decreases ids.len(),
{
    if ids.len() == 0 {
        (a, seq![])
    } else {
        let first = unmap_step(a, ids[0] as int);
        let rest = unmapped_all(first.0, ids.drop_first());
        (rest.0, first.1 + rest.1)
    }
}

/// Flushes the buffer in slot `id` where that is due.
fn flush_one(buffers: &mut Arena<buffer::Raw<Backend>>, id: usize, calls: &mut Vec<Call>)
    ensures
        final(buffers)@ == flush_step(old(buffers)@, id as int).0,
        final(calls)@ == old(calls)@ + flush_step(old(buffers)@, id as int).1,
{
    match buffers.get_mut(id) {
        Some(raw) => {
            let target = role_to_target(raw.info.role);
            let buffer = raw.resource;
            let length = #[verifier::truncate] (raw.info.size as isize);
            match &mut raw.mapping {
                Some(mapping) => {
                    match &mut mapping.resource.kind {
                        MappingKind::Persistent(status) => {
                            if status.ensure_flushed() {
                                calls.push(Call::BindBuffer { target, buffer });
                                calls.push(Call::FlushMappedBufferRange { target, offset: 0, length });
                            }
                        },
                        MappingKind::Temporary => {},
                    }
                },
                None => {},
            }
        },
        None => {},
    }
    assert(buffers@ =~= flush_step(old(buffers)@, id as int).0);
    assert(calls@ =~= old(calls)@ + flush_step(old(buffers)@, id as int).1);
}

/// Unmaps the buffer in slot `id` where it is mapped.
fn unmap_one(buffers: &mut Arena<buffer::Raw<Backend>>, id: usize, calls: &mut Vec<Call>)
    ensures
        final(buffers)@ == unmap_step(old(buffers)@, id as int).0,
        final(calls)@ == old(calls)@ + unmap_step(old(buffers)@, id as int).1,
{
    match buffers.get_mut(id) {
        Some(raw) => {
            let target = role_to_target(raw.info.role);
            let buffer = raw.resource;
            match &mut raw.mapping {
                Some(mapping) => {
                    temporary_ensure_unmapped(&mut mapping.resource.pointer, target, buffer, calls);
                },
                None => {},
            }
        },
        None => {},
    }
    assert(buffers@ =~= unmap_step(old(buffers)@, id as int).0);
    assert(calls@ =~= old(calls)@ + unmap_step(old(buffers)@, id as int).1);
}

/// Flushes every buffer in `ids` where that is due, first to last.
fn flush_each(buffers: &mut Arena<buffer::Raw<Backend>>, ids: &Vec<usize>, calls: &mut Vec<Call>)
    ensures
        final(buffers)@ == flushed_all(old(buffers)@, ids@).0,
        final(calls)@ == old(calls)@ + flushed_all(old(buffers)@, ids@).1,
{
    let n = ids.len();
    let mut i: usize = 0;
    assert(ids@.subrange(0, n as int) =~= ids@);
    while i < n
        invariant
            i <= n,
            n == ids@.len(),
            flushed_all(buffers@, ids@.subrange(i as int, n as int)).0 == flushed_all(old(buffers)@,
                ids@,
            ).0,
            calls@ + flushed_all(buffers@, ids@.subrange(i as int, n as int)).1 == old(calls)@
                + flushed_all(old(buffers)@, ids@).1,
        decreases n - i,
    {
        let ghost rest = ids@.subrange(i as int, n as int);
        let ghost before = buffers@;
        let ghost made = calls@;
        assert(rest[0] == ids@[i as int]);
        assert(rest.drop_first() =~= ids@.subrange(i as int + 1, n as int));
        flush_one(buffers, ids[i], calls);
        proof {
            let first = flush_step(before, ids@[i as int] as int);
            let tail = flushed_all(first.0, rest.drop_first());
            assert(flushed_all(before, rest).1 == first.1 + tail.1);
            assert(calls@ + tail.1 =~= made + (first.1 + tail.1));
        }
        i = i + 1;
    }
    assert(ids@.subrange(n as int, n as int) =~= Seq::<usize>::empty());
    assert(calls@ + Seq::<Call>::empty() =~= calls@);
}

/// Unmaps every buffer in `ids` that is mapped, first to last.
fn unmap_each(buffers: &mut Arena<buffer::Raw<Backend>>, ids: &Vec<usize>, calls: &mut Vec<Call>)
    ensures
        final(buffers)@ == unmapped_all(old(buffers)@, ids@).0,
        final(calls)@ == old(calls)@ + unmapped_all(old(buffers)@, ids@).1,
{
    let n = ids.len();
    let mut i: usize = 0;
    assert(ids@.subrange(0, n as int) =~= ids@);
    while i < n
        invariant
            i <= n,
            n == ids@.len(),
            unmapped_all(buffers@, ids@.subrange(i as int, n as int)).0 == unmapped_all(old(buffers)@,
                ids@,
            ).0,
            calls@ + unmapped_all(buffers@, ids@.subrange(i as int, n as int)).1 == old(calls)@
                + unmapped_all(old(buffers)@, ids@).1,
        decreases n - i,
    {
        let ghost rest = ids@.subrange(i as int, n as int);
        let ghost before = buffers@;
        let ghost made = calls@;
        assert(rest[0] == ids@[i as int]);
        assert(rest.drop_first() =~= ids@.subrange(i as int + 1, n as int));
        unmap_one(buffers, ids[i], calls);
        proof {
            let first = unmap_step(before, ids@[i as int] as int);
            let tail = unmapped_all(first.0, rest.drop_first());
            assert(unmapped_all(before, rest).1 == first.1 + tail.1);
            assert(calls@ + tail.1 =~= made + (first.1 + tail.1));
        }
        i = i + 1;
    }
    assert(ids@.subrange(n as int, n as int) =~= Seq::<usize>::empty());
    assert(calls@ + Seq::<Call>::empty() =~= calls@);
}

/// The slots of the fences.
pub type Fences = Seq<Option<Slot<native::Fence>>>;

/// Slot `id` holds a buffer whose memory is mapped for a time only.
pub open spec fn misfit(a: Buffers, id: int) -> bool {
    mapped(a, id) && gate_of(a, id).kind is Temporary
}

/// One of the buffers in `ids` has its memory mapped for a time only.
pub open spec fn any_misfit(a: Buffers, ids: Seq<usize>) -> bool {
    exists|k: int| 0 <= k < ids.len() && misfit(a, #[trigger] ids[k] as int)
}

/// Whether one of the buffers in `ids` has its memory mapped for a time
/// only.
fn find_misfit(buffers: &Arena<buffer::Raw<Backend>>, ids: &Vec<usize>) -> (found: bool)
    ensures
        found == any_misfit(buffers@, ids@),
{
    let n = ids.len();
    let mut i: usize = 0;
    while i < n
        invariant
            i <= n,
            n == ids@.len(),
            forall|k: int| 0 <= k < i ==> !misfit(buffers@, #[trigger] ids@[k] as int),
        decreases n - i,
    {
        match buffers.get(ids[i]) {
            Some(raw) => {
                match &raw.mapping {
                    Some(mapping) => {
                        match &mapping.resource.kind {
                            MappingKind::Temporary => {
                                return true;
                            },
                            MappingKind::Persistent(_) => {},
                        }
                    },
                    None => {},
                }
            },
            None => {},
        }
        i = i + 1;
    }
    false
}

/// The fences after the reference of a mapping moved from the fence it
/// noted before, if any, to `fence`.
pub open spec fn moved(f: Fences, previous: Option<usize>, fence: usize) -> Fences {
    match previous {
        Some(p) => released(retained(f, fence as int), p as int),
        None => retained(f, fence as int),
    }
}

/// Noting on the buffer in slot `id` that the GPU's access to its memory
/// lies behind `fence`: the mapping takes a reference to the fence and gives
/// back the one it had. A buffer whose memory does not stay mapped is passed
/// over, and so is every buffer where no reference to the fence can be
/// counted.
pub open spec fn track_step(b: Buffers, f: Fences, id: int, fence: usize) -> (Buffers, Fences) {
    if mapped(b, id) && can_retain(f, fence as int) {
        match gate_of(b, id).kind {
            MappingKind::Persistent(status) => (
                regated(
                    b,
                    id,
                    MappingGate {
                        kind: MappingKind::Persistent(
                            Status { cpu_wrote: status.cpu_wrote, gpu_access: Some(fence) },
                        ),
                        pointer: gate_of(b, id).pointer,
                    },
                ),
                moved(f, status.gpu_access, fence),
            ),
            MappingKind::Temporary => (b, f),
        }
    } else {
        (b, f)
    }
}

/// Noting the fence on every buffer in `ids`, first to last.
pub open spec fn fenced(b: Buffers, f: Fences, ids: Seq<usize>, fence: usize) -> (Buffers, Fences)
    decreases ids.len(),
{
    if ids.len() == 0 {
        (b, f)
    } else {
        let first = track_step(b, f, ids[0] as int, fence);
        fenced(first.0, first.1, ids.drop_first(), fence)
    }
}

/// Notes the fence on the buffer in slot `id`.
fn track_one(
    buffers: &mut Arena<buffer::Raw<Backend>>,
    fences: &mut Arena<native::Fence>,
    id: usize,
    fence: usize,
)
    ensures
        (final(buffers)@, final(fences)@) == track_step(
            old(buffers)@,
            old(fences)@,
            id as int,
            fence,
        ),
{
    match buffers.get_mut(id) {
        Some(raw) => {
            match &mut raw.mapping {
                Some(mapping) => {
                    match &mut mapping.resource.kind {
                        MappingKind::Persistent(status) => {
                            if fences.retain(fence) {
                                match status.gpu_access(fence) {
                                    Some(previous) => {
                                        let _ = fences.release(previous);
                                    },
                                    None => {},
                                }
                            }
                        },
                        MappingKind::Temporary => {},
                    }
                },
                None => {},
            }
        },
        None => {},
    }
    assert(buffers@ =~= track_step(old(buffers)@, old(fences)@, id as int, fence).0);
}

/// Notes the fence on every buffer in `ids`, first to last.
fn track_each(
    buffers: &mut Arena<buffer::Raw<Backend>>,
    fences: &mut Arena<native::Fence>,
    ids: &Vec<usize>,
    fence: usize,
)
    ensures
        (final(buffers)@, final(fences)@) == fenced(old(buffers)@, old(fences)@, ids@, fence),
{
    let n = ids.len();
    let mut i: usize = 0;
    assert(ids@.subrange(0, n as int) =~= ids@);
    while i < n
        invariant
            i <= n,
            n == ids@.len(),
            fenced(buffers@, fences@, ids@.subrange(i as int, n as int), fence) == fenced(
                old(buffers)@,
                old(fences)@,
                ids@,
                fence,
            ),
        decreases n - i,
    {
        let ghost rest = ids@.subrange(i as int, n as int);
        assert(rest[0] == ids@[i as int]);
        assert(rest.drop_first() =~= ids@.subrange(i as int + 1, n as int));
        track_one(buffers, fences, ids[i], fence);
        i = i + 1;
    }
    assert(ids@.subrange(n as int, n as int) =~= Seq::<usize>::empty());
}

/// The slots after the mappings of the buffers read and written were taken.
pub open spec fn taken(a: Buffers, reads: Seq<usize>, writes: Seq<usize>) -> Buffers {
    marked_all(marked_all(a, reads, false), writes, false)
}

/// Getting mapped memory ready for the GPU. Where memory stays mapped
/// (`storage`), every buffer read is flushed where the CPU has written to
/// it. Elsewhere every buffer read or written is unmapped.
pub open spec fn readied(a: Buffers, reads: Seq<usize>, writes: Seq<usize>, storage: bool) -> (
    Buffers,
    Seq<Call>,
) {
    if storage {
        flushed_all(a, reads)
    } else {
        let first = unmapped_all(a, reads);
        let second = unmapped_all(first.0, writes);
        (second.0, first.1 + second.1)
    }
}

/// Noting the fence on every buffer read, then on every buffer written.
pub open spec fn fenced_both(
    b: Buffers,
    f: Fences,
    reads: Seq<usize>,
    writes: Seq<usize>,
    fence: usize,
) -> (Buffers, Fences) {
    let first = fenced(b, f, reads, fence);
    fenced(first.0, first.1, writes, fence)
}

/// The call that places a sync object for the fence in slot `fence`.
pub open spec fn fence_call(fence: usize) -> Call {
    Call::FenceSync { condition: SYNC_GPU_COMMANDS_COMPLETE, flags: 0, fence }
}

/// The call that makes writes of the GPU to mapped memory visible.
pub open spec fn barrier_call() -> Call {
    Call::MemoryBarrier { barriers: CLIENT_MAPPED_BUFFER_BARRIER_BIT }
}

/// Whether a fence is placed behind a batch: where memory stays mapped and
/// the batch touches a mapped buffer.
pub open spec fn fence_due(storage: bool, reads: Seq<usize>, writes: Seq<usize>) -> bool {
    storage && (reads.len() > 0 || writes.len() > 0)
}

/// The calls behind a batch: the barrier where a mapped buffer was written,
/// then the fence, which goes to slot `fence`.
pub open spec fn after_calls(storage: bool, reads: Seq<usize>, writes: Seq<usize>, fence: usize) -> Seq<
    Call,
> {
    if fence_due(storage, reads, writes) {
        if writes.len() > 0 {
            seq![barrier_call(), fence_call(fence)]
        } else {
            seq![fence_call(fence)]
        }
    } else {
        seq![]
    }
}

impl CommandQueue {
    /// Takes the mappings of the buffers that the batch touches, and gets
    /// their memory ready for the GPU. Fails, and changes nothing, where a
    /// mapping is in other hands, and where memory that should stay mapped
    /// is mapped for a time only.
    pub fn before_submit(&self, share: &mut Share, gpu_access: &AccessInfo<Backend>) -> (r:
        SubmissionResult<(AccessGuard<Backend>, Vec<Call>)>)
        ensures
            final(share).setup() == old(share).setup(),
            final(share).handles == old(share).handles,
            r matches Err(e) ==> final(share).heap@ == old(share).heap@,
            (r matches Err(e) && e == SubmissionError::AccessOverlap) <==> any_busy(
                old(share).heap@.buffers,
                gpu_access.mapped_reads@ + gpu_access.mapped_writes@,
            ),
            (r matches Err(e) && e == SubmissionError::MappingMismatch) <==> !any_busy(
                old(share).heap@.buffers,
                gpu_access.mapped_reads@ + gpu_access.mapped_writes@,
            ) && old(share).private_caps.buffer_storage_supported && (any_misfit(
                old(share).heap@.buffers,
                gpu_access.mapped_reads@,
            ) || any_misfit(old(share).heap@.buffers, gpu_access.mapped_writes@)),
            r matches Ok(ready) ==> ready.0.reads@ == gpu_access.mapped_reads@ && ready.0.writes@
                == gpu_access.mapped_writes@ && final(share).heap@ == (HeapView {
                buffers: readied(
                    taken(
                        old(share).heap@.buffers,
                        gpu_access.mapped_reads@,
                        gpu_access.mapped_writes@,
                    ),
                    gpu_access.mapped_reads@,
                    gpu_access.mapped_writes@,
                    old(share).private_caps.buffer_storage_supported,
                ).0,
                ..old(share).heap@
            }) && ready.1@ == readied(
                taken(
                    old(share).heap@.buffers,
                    gpu_access.mapped_reads@,
                    gpu_access.mapped_writes@,
                ),
                gpu_access.mapped_reads@,
                gpu_access.mapped_writes@,
                old(share).private_caps.buffer_storage_supported,
            ).1,
    {
        if gpu_access.is_busy(&share.heap.buffers) {
            return Err(SubmissionError::AccessOverlap);
        }
        if share.private_caps.buffer_storage_supported {
            let read_misfit = find_misfit(&share.heap.buffers, &gpu_access.mapped_reads);
            let write_misfit = find_misfit(&share.heap.buffers, &gpu_access.mapped_writes);
            if read_misfit || write_misfit {
                return Err(SubmissionError::MappingMismatch);
            }
        }
        match gpu_access.take_accesses(&mut share.heap.buffers) {
            Ok(guard) => {
                let calls = if share.private_caps.buffer_storage_supported {
                    self.ensure_mappings_flushed(share, &guard)
                } else {
                    self.ensure_mappings_unmapped(share, &guard)
                };
                Ok((guard, calls))
            },
            Err(e) => Err(e),
        }
    }

    /// Flushes every buffer read whose memory stays mapped and was written
    /// by the CPU since it was last flushed: one flush for each.
    pub fn ensure_mappings_flushed(&self, share: &mut Share, gpu_access: &AccessGuard<Backend>) -> (calls:
        Vec<Call>)
        ensures
            final(share).setup() == old(share).setup(),
            final(share).handles == old(share).handles,
            final(share).heap@ == (HeapView {
                buffers: flushed_all(old(share).heap@.buffers, gpu_access.reads@).0,
                ..old(share).heap@
            }),
            calls@ == flushed_all(old(share).heap@.buffers, gpu_access.reads@).1,
    {
        let mut calls: Vec<Call> = Vec::new();
        flush_each(&mut share.heap.buffers, &gpu_access.reads, &mut calls);
        assert(Seq::<Call>::empty() + flushed_all(old(share).heap@.buffers, gpu_access.reads@).1
            =~= flushed_all(old(share).heap@.buffers, gpu_access.reads@).1);
        calls
    }

    /// Unmaps every buffer read or written whose memory is mapped.
    pub fn ensure_mappings_unmapped(&self, share: &mut Share, gpu_access: &AccessGuard<Backend>) -> (calls:
        Vec<Call>)
        ensures
            final(share).setup() == old(share).setup(),
            final(share).handles == old(share).handles,
            final(share).heap@ == (HeapView {
                buffers: readied(
                    old(share).heap@.buffers,
                    gpu_access.reads@,
                    gpu_access.writes@,
                    false,
                ).0,
                ..old(share).heap@
            }),
            calls@ == readied(old(share).heap@.buffers, gpu_access.reads@, gpu_access.writes@, false).1,
    {
        let mut calls: Vec<Call> = Vec::new();
        unmap_each(&mut share.heap.buffers, &gpu_access.reads, &mut calls);
        unmap_each(&mut share.heap.buffers, &gpu_access.writes, &mut calls);
        assert(calls@ =~= readied(
            old(share).heap@.buffers,
            gpu_access.reads@,
            gpu_access.writes@,
            false,
        ).1);
        calls
    }

    /// The call that makes writes of the GPU to mapped memory visible.
    pub fn place_memory_barrier(&self) -> (call: Call)
        ensures
            call == barrier_call(),
    {
        Call::MemoryBarrier { barriers: CLIENT_MAPPED_BUFFER_BARRIER_BIT }
    }

    /// Makes a fence that is to lie behind everything submitted so far. The
    /// queue keeps it until the next cleanup. The sync object is placed by
    /// the call that is returned, and then handed in with
    /// [`Share::fence_placed`].
    pub fn place_fence(&mut self, share: &mut Share) -> (placed: (Fence<Backend>, Call))
        ensures
            placed.0 == (Fence::<Backend> {
                slot: old(share).heap@.fences.len() as usize,
                marker: PhantomData,
            }),
            placed.1 == fence_call(placed.0.slot),
            final(share).setup() == old(share).setup(),
            final(share).handles == old(share).handles,
            final(share).heap@ == (HeapView {
                fences: created(old(share).heap@.fences, native::Fence(0)),
                ..old(share).heap@
            }),
            final(self).frame_handles@ == (ManagerView {
                fences: old(self).frame_handles@.fences.push(placed.0.slot),
                ..old(self).frame_handles@
            }),
            final(self).vao == old(self).vao,
            final(self).state == old(self).state,
            final(self).max_resource_count == old(self).max_resource_count,
    {
        let fence = self.frame_handles.make_fence(&mut share.heap, native::Fence::new(0));
        let call = Call::FenceSync {
            condition: SYNC_GPU_COMMANDS_COMPLETE,
            flags: 0,
            fence: fence.slot,
        };
        (fence, call)
    }

    /// Signals `fence` anew behind everything submitted so far, where there
    /// are sync objects; does nothing where there are none. The queue keeps
    /// the fence until the next cleanup.
    pub fn signal_fence(&mut self, share: &mut Share, fence: &Fence<Backend>) -> (calls: Vec<Call>)
        ensures
            final(share).setup() == old(share).setup(),
            final(share).handles == old(share).handles,
            final(self).vao == old(self).vao,
            final(self).state == old(self).state,
            final(self).max_resource_count == old(self).max_resource_count,
            old(share).private_caps.sync_supported ==> calls@ == seq![fence_call(fence.slot)]
                && final(share).heap@ == (HeapView {
                fences: noted(old(share).heap@.fences, old(self).frame_handles@.fences, fence.slot).0,
                ..old(share).heap@
            }) && final(self).frame_handles@ == (ManagerView {
                fences: noted(old(share).heap@.fences, old(self).frame_handles@.fences, fence.slot).1,
                ..old(self).frame_handles@
            }),
            !old(share).private_caps.sync_supported ==> calls@ == Seq::<Call>::empty()
                && final(share).heap@ == old(share).heap@ && final(self).frame_handles@ == old(
                self,
            ).frame_handles@,
    {
        let mut calls: Vec<Call> = Vec::new();
        if share.private_caps.sync_supported {
            let slot = self.frame_handles.ref_fence(&mut share.heap, fence);
            calls.push(
                Call::FenceSync { condition: SYNC_GPU_COMMANDS_COMPLETE, flags: 0, fence: slot },
            );
        }
        calls
    }

    /// Notes on every buffer read or written whose memory stays mapped that
    /// the GPU's access lies behind `fence`.
    pub fn track_mapped_gpu_access(
        &self,
        share: &mut Share,
        gpu_access: &AccessGuard<Backend>,
        fence: &Fence<Backend>,
    )
        ensures
            final(share).setup() == old(share).setup(),
            final(share).handles == old(share).handles,
            final(share).heap@ == (HeapView {
                buffers: fenced_both(
                    old(share).heap@.buffers,
                    old(share).heap@.fences,
                    gpu_access.reads@,
                    gpu_access.writes@,
                    fence.slot,
                ).0,
                fences: fenced_both(
                    old(share).heap@.buffers,
                    old(share).heap@.fences,
                    gpu_access.reads@,
                    gpu_access.writes@,
                    fence.slot,
                ).1,
                ..old(share).heap@
            }),
    {
        track_each(&mut share.heap.buffers, &mut share.heap.fences, &gpu_access.reads, fence.slot);
        track_each(&mut share.heap.buffers, &mut share.heap.fences, &gpu_access.writes, fence.slot);
    }

    /// Refers to `fence`, and returns the call that waits for it for at most
    /// a millisecond.
    pub fn wait_fence(&mut self, share: &mut Share, fence: &Fence<Backend>) -> (call: Call)
        ensures
            call == (Call::ClientWaitSync {
                fence: fence.slot,
                flags: SYNC_FLUSH_COMMANDS_BIT,
                timeout: 1_000_000,
            }),
            final(share).setup() == old(share).setup(),
            final(share).handles == old(share).handles,
            final(share).heap@ == (HeapView {
                fences: noted(old(share).heap@.fences, old(self).frame_handles@.fences, fence.slot).0,
                ..old(share).heap@
            }),
            final(self).frame_handles@ == (ManagerView {
                fences: noted(old(share).heap@.fences, old(self).frame_handles@.fences, fence.slot).1,
                ..old(self).frame_handles@
            }),
            final(self).vao == old(self).vao,
            final(self).state == old(self).state,
            final(self).max_resource_count == old(self).max_resource_count,
    {
        let slot = self.frame_handles.ref_fence(&mut share.heap, fence);
        Call::ClientWaitSync { fence: slot, flags: SYNC_FLUSH_COMMANDS_BIT, timeout: 1_000_000 }
    }
}

/// The heap and the queue's references behind a batch. Where a fence is
/// due, it is made in a new slot and kept by the queue, and every buffer
/// read or written notes it.
pub open spec fn after_step(
    h: HeapView<Backend>,
    m: ManagerView,
    reads: Seq<usize>,
    writes: Seq<usize>,
    storage: bool,
) -> (HeapView<Backend>, ManagerView) {
    if fence_due(storage, reads, writes) {
        let slot = h.fences.len() as usize;
        let both = fenced_both(h.buffers, created(h.fences, native::Fence(0)), reads, writes, slot);
        (
            HeapView { buffers: both.0, fences: released(both.1, slot as int), ..h },
            ManagerView { fences: m.fences.push(slot), ..m },
        )
    } else {
        (h, m)
    }
}

/// The state that a command buffer is replayed from.
pub open spec fn settled_state() -> State {
    State { vao: true, index_buffer: Some(0u32), num_viewports: 0, num_scissors: 0 }
}

/// The state after every command in `cmds` was replayed, first to last.
pub open spec fn state_after_all(state: State, cmds: Seq<Command>) -> State
    decreases cmds.len(),
{
    if cmds.len() == 0 {
        state
    } else {
        state_after_all(state.after(cmds[0]), cmds.drop_first())
    }
}

/// Every command in `cmds` can be replayed.
pub open spec fn all_replayable(cmds: Seq<Command>, len: nat, limits: Limits) -> bool {
    forall|j: int| 0 <= j < cmds.len() ==> replayable(#[trigger] cmds[j], len, limits)
}

/// What the replay of one command buffer asks for.
pub struct Replay {
    /// The reset before the first command.
    pub reset: Reset,
    /// What became of each command, in order.
    pub outcomes: Vec<Outcome>,
}

/// `replay` is the replay of the commands `cmds` from the state `state`: the
/// reset that the state calls for, then each command turned into calls.
pub open spec fn replay_of(
    replay: Replay,
    state: State,
    vao: u32,
    caps: PrivateCaps,
    features: Features,
    debug: bool,
    cmds: Seq<Command>,
) -> bool {
    &&& replay.reset.calls@ == reset_calls(state, vao, caps)
    &&& rects(replay.reset.scissors) == reset_rects(state.num_scissors)
    &&& replay.outcomes@.len() == cmds.len()
    &&& forall|j: int|
        0 <= j < cmds.len() ==> (#[trigger] replay.outcomes@[j]).calls@ == calls_of(
            features,
            cmds[j],
        ) + check_calls(debug) && replay.outcomes@[j].rejected == rejection_of(features, cmds[j])
}

impl CommandQueue {
    /// Places what belongs behind a batch: where memory stays mapped and the
    /// batch touched a mapped buffer, a barrier if it wrote to one, and a
    /// fence, which every buffer touched then notes.
    pub fn after_submit(&mut self, share: &mut Share, gpu_access: &AccessGuard<Backend>) -> (calls:
        Vec<Call>)
        ensures
            final(share).setup() == old(share).setup(),
            final(share).handles == old(share).handles,
            final(self).vao == old(self).vao,
            final(self).state == old(self).state,
            final(self).max_resource_count == old(self).max_resource_count,
            calls@ == after_calls(
                old(share).private_caps.buffer_storage_supported,
                gpu_access.reads@,
                gpu_access.writes@,
                old(share).heap@.fences.len() as usize,
            ),
            (final(share).heap@, final(self).frame_handles@) == after_step(
                old(share).heap@,
                old(self).frame_handles@,
                gpu_access.reads@,
                gpu_access.writes@,
                old(share).private_caps.buffer_storage_supported,
            ),
    {
        let mut calls: Vec<Call> = Vec::new();
        if share.private_caps.buffer_storage_supported && (gpu_access.has_mapped_reads()
            || gpu_access.has_mapped_writes()) {
            if gpu_access.has_mapped_writes() {
                calls.push(self.place_memory_barrier());
            }
            let (fence, call) = self.place_fence(share);
            calls.push(call);
            self.track_mapped_gpu_access(share, gpu_access, &fence);
            fence.release(&mut share.heap);
        }
        calls
    }

    /// Replays one command buffer: the reset first, then each command in
    /// order.
    pub fn replay(&mut self, share: &Share, info: &SubmitInfo) -> (replay: Replay)
        requires
            old(self).state.sound(),
            all_replayable(info.buf@, info.data@.len(), share.limits),
        ensures
            replay_of(
                replay,
                old(self).state,
                old(self).vao,
                share.private_caps,
                share.features,
                share.debug,
                info.buf@,
            ),
            final(self).state == state_after_all(settled_state(), info.buf@),
            final(self).state.clean(),
            final(self).state.sound(),
            final(self).vao == old(self).vao,
            final(self).frame_handles == old(self).frame_handles,
            final(self).max_resource_count == old(self).max_resource_count,
    {
        let reset = self.reset_state(share);
        let mut outcomes: Vec<Outcome> = Vec::new();
        let n = info.buf.len();
        let mut i: usize = 0;
        assert(info.buf@.subrange(0, n as int) =~= info.buf@);
        while i < n
            invariant
                i <= n,
                n == info.buf@.len(),
                all_replayable(info.buf@, info.data@.len(), share.limits),
                self.state.clean(),
                self.state.sound(),
                self.vao == old(self).vao,
                self.frame_handles == old(self).frame_handles,
                self.max_resource_count == old(self).max_resource_count,
                state_after_all(self.state, info.buf@.subrange(i as int, n as int))
                    == state_after_all(settled_state(), info.buf@),
                outcomes@.len() == i,
                forall|j: int|
                    0 <= j < i ==> (#[trigger] outcomes@[j]).calls@ == calls_of(
                        share.features,
                        info.buf@[j],
                    ) + check_calls(share.debug) && outcomes@[j].rejected == rejection_of(
                        share.features,
                        info.buf@[j],
                    ),
            decreases n - i,
        {
            let ghost rest = info.buf@.subrange(i as int, n as int);
            assert(rest[0] == info.buf@[i as int]);
            assert(rest.drop_first() =~= info.buf@.subrange(i as int + 1, n as int));
            let out = self.process(share, &info.buf[i], &info.data);
            outcomes.push(out);
            i = i + 1;
        }
        assert(info.buf@.subrange(n as int, n as int) =~= Seq::<Command>::empty());
        Replay { reset, outcomes }
    }
}

/// The state that command buffer `i` of a batch is replayed from, where the
/// batch starts from the state `prior`.
pub open spec fn state_before(prior: State, infos: Seq<SubmitInfo>, i: int) -> State {
    if i <= 0 {
        prior
    } else {
        state_after_all(settled_state(), infos[i - 1].buf@)
    }
}

/// Every command of every command buffer can be replayed.
pub open spec fn batch_replayable(infos: Seq<SubmitInfo>, limits: Limits) -> bool {
    forall|i: int|
        0 <= i < infos.len() ==> all_replayable(
            (#[trigger] infos[i]).buf@,
            infos[i].data@.len(),
            limits,
        )
}

/// The slot of a fence, where there is one.
pub open spec fn slot_of(fence: Option<&Fence<Backend>>) -> Option<usize> {
    match fence {
        Some(f) => Some(f.slot),
        None => None,
    }
}

/// The heap and the queue's references after the caller's fence was
/// signalled: the queue refers to the fence, where there is one and there
/// are sync objects.
pub open spec fn signal_step(
    h: HeapView<Backend>,
    m: ManagerView,
    sync: bool,
    fence: Option<usize>,
) -> (HeapView<Backend>, ManagerView) {
    match fence {
        Some(slot) => if sync {
            (
                HeapView { fences: noted(h.fences, m.fences, slot).0, ..h },
                ManagerView { fences: noted(h.fences, m.fences, slot).1, ..m },
            )
        } else {
            (h, m)
        },
        None => (h, m),
    }
}

/// The call that signals the caller's fence.
pub open spec fn signal_calls(sync: bool, fence: Option<usize>) -> Seq<Call> {
    match fence {
        Some(slot) => if sync {
            seq![fence_call(slot)]
        } else {
            seq![]
        },
        None => seq![],
    }
}

/// The heap before the replay of a batch: mappings taken, memory readied.
pub open spec fn before_step(
    h: HeapView<Backend>,
    reads: Seq<usize>,
    writes: Seq<usize>,
    storage: bool,
) -> HeapView<Backend> {
    HeapView { buffers: readied(taken(h.buffers, reads, writes), reads, writes, storage).0, ..h }
}

/// The heap after the mappings that a batch had taken were set free.
pub open spec fn release_step(h: HeapView<Backend>, reads: Seq<usize>, writes: Seq<usize>) -> HeapView<
    Backend,
> {
    HeapView { buffers: marked_all(marked_all(h.buffers, reads, true), writes, true), ..h }
}

/// What a submission leaves: the heap and the queue's references, after the
/// steps before the replay, behind it, the signal, and the release of the
/// mappings, in this order.
pub open spec fn submitted(
    h: HeapView<Backend>,
    m: ManagerView,
    reads: Seq<usize>,
    writes: Seq<usize>,
    caps: PrivateCaps,
    fence: Option<usize>,
) -> (HeapView<Backend>, ManagerView) {
    let before = before_step(h, reads, writes, caps.buffer_storage_supported);
    let after = after_step(before, m, reads, writes, caps.buffer_storage_supported);
    let signalled = signal_step(after.0, after.1, caps.sync_supported, fence);
    (release_step(signalled.0, reads, writes), signalled.1)
}

/// What a submission asks for.
pub struct Submission {
    /// The calls before the replay: flushes or unmaps.
    pub before: Vec<Call>,
    /// The replay of each command buffer, in order.
    pub replays: Vec<Replay>,
    /// The calls behind the replay: barrier and fences.
    pub after: Vec<Call>,
}

impl CommandQueue {
    /// Submits a batch of command buffers: takes the mappings that it
    /// touches and readies their memory, replays each command buffer in
    /// order, places a fence behind the batch where memory stays mapped, and
    /// signals the fence of the caller. Where the batch cannot be submitted,
    /// nothing is changed.
    pub fn submit_raw(
        &mut self,
        share: &mut Share,
        submit_infos: &Vec<SubmitInfo>,
        fence: Option<&Fence<Backend>>,
        access: &AccessInfo<Backend>,
    ) -> (r: SubmissionResult<Submission>)
        requires
            old(self).state.sound(),
            batch_replayable(submit_infos@, old(share).limits),
        ensures
            final(share).setup() == old(share).setup(),
            final(share).handles == old(share).handles,
            final(self).vao == old(self).vao,
            final(self).max_resource_count == old(self).max_resource_count,
            (r matches Err(e) && e == SubmissionError::AccessOverlap) <==> any_busy(
                old(share).heap@.buffers,
                access.mapped_reads@ + access.mapped_writes@,
            ),
            (r matches Err(e) && e == SubmissionError::MappingMismatch) <==> !any_busy(
                old(share).heap@.buffers,
                access.mapped_reads@ + access.mapped_writes@,
            ) && old(share).private_caps.buffer_storage_supported && (any_misfit(
                old(share).heap@.buffers,
                access.mapped_reads@,
            ) || any_misfit(old(share).heap@.buffers, access.mapped_writes@)),
            r matches Err(e) ==> final(share).heap@ == old(share).heap@ && final(self).state == old(
                self,
            ).state && final(self).frame_handles@ == old(self).frame_handles@,
            r matches Ok(sub) ==> {
                &&& sub.before@ == readied(
                    taken(old(share).heap@.buffers, access.mapped_reads@, access.mapped_writes@),
                    access.mapped_reads@,
                    access.mapped_writes@,
                    old(share).private_caps.buffer_storage_supported,
                ).1
                &&& sub.replays@.len() == submit_infos@.len()
                &&& forall|i: int|
                    0 <= i < submit_infos@.len() ==> replay_of(
                        #[trigger] sub.replays@[i],
                        state_before(old(self).state, submit_infos@, i),
                        old(self).vao,
                        old(share).private_caps,
                        old(share).features,
                        old(share).debug,
                        submit_infos@[i].buf@,
                    )
                &&& final(self).state == state_before(
                    old(self).state,
                    submit_infos@,
                    submit_infos@.len() as int,
                )
                &&& final(self).state.sound()
                &&& sub.after@ == after_calls(
                    old(share).private_caps.buffer_storage_supported,
                    access.mapped_reads@,
                    access.mapped_writes@,
                    old(share).heap@.fences.len() as usize,
                ) + signal_calls(old(share).private_caps.sync_supported, slot_of(fence))
                &&& (final(share).heap@, final(self).frame_handles@) == submitted(
                    old(share).heap@,
                    old(self).frame_handles@,
                    access.mapped_reads@,
                    access.mapped_writes@,
                    old(share).private_caps,
                    slot_of(fence),
                )
            },
    {
        let (guard, before) = match self.before_submit(share, access) {
            Ok(ready) => ready,
            Err(e) => {
                return Err(e);
            },
        };
        let mut replays: Vec<Replay> = Vec::new();
        let n = submit_infos.len();
        let mut i: usize = 0;
        while i < n
            invariant
                i <= n,
                n == submit_infos@.len(),
                batch_replayable(submit_infos@, share.limits),
                self.vao == old(self).vao,
                self.frame_handles == old(self).frame_handles,
                self.max_resource_count == old(self).max_resource_count,
                self.state == state_before(old(self).state, submit_infos@, i as int),
                self.state.sound(),
                replays@.len() == i,
                forall|k: int|
                    0 <= k < i ==> replay_of(
                        #[trigger] replays@[k],
                        state_before(old(self).state, submit_infos@, k),
                        old(self).vao,
                        share.private_caps,
                        share.features,
                        share.debug,
                        submit_infos@[k].buf@,
                    ),
            decreases n - i,
        {
            let replay = self.replay(share, &submit_infos[i]);
            replays.push(replay);
            i = i + 1;
        }
        let mut after = self.after_submit(share, &guard);
        match fence {
            Some(f) => {
                let mut signal = self.signal_fence(share, f);
                after.append(&mut signal);
            },
            None => {
                assert(after@ + Seq::<Call>::empty() =~= after@);
            },
        }
        guard.release(&mut share.heap.buffers);
        Ok(Submission { before, replays, after })
    }

    /// Keeps what the submitted command buffers refer to alive until the next
    /// cleanup. Says, once, when the queue holds more references than a frame
    /// should ever need, which is a sign that cleanup was forgotten; after
    /// that the number is no longer looked at.
    pub fn pin_submitted_resources(&mut self, share: &mut Share, man: &Manager<Backend>) -> (warned:
        bool)
        ensures
            final(share).setup() == old(share).setup(),
            final(share).handles == old(share).handles,
            final(self).vao == old(self).vao,
            final(self).state == old(self).state,
            extended(
                old(share).heap@,
                old(self).frame_handles@,
                man@,
                final(share).heap@,
                final(self).frame_handles@,
            ),
            warned == (old(self).max_resource_count.is_some() && final(self).frame_handles@.counted()
                > old(self).max_resource_count.unwrap()),
            final(self).max_resource_count == if warned {
                None
            } else {
                old(self).max_resource_count
            },
    {
        self.frame_handles.extend(&mut share.heap, man);
        match self.max_resource_count {
            Some(limit) => {
                if self.frame_handles.count() > limit {
                    self.max_resource_count = None;
                    true
                } else {
                    false
                }
            },
            None => false,
        }
    }
}

} // verus!
