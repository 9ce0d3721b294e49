//! How buffer memory is mapped under OpenGL.
//!
//! Where buffers can have immutable storage, a mapping is made once and
//! stays: it is persistent, and flushes and fences keep the two sides apart.
//! Elsewhere a mapping is temporary: the memory is mapped when the CPU asks
//! for it and unmapped before the GPU uses the buffer.

use std::marker::PhantomData;
use vstd::prelude::*;
use crate::arena::{live, released, Arena, Slot};
use crate::buffer;
use crate::buffer::Role;
use crate::command::{busy, mapped, marked};
use crate::gl::native;
use crate::gl::submit::{gate_of, regated, Buffers, Fences};
use crate::gl::{Backend, Share};
use crate::handle::{Fence, HeapView, RawBuffer};
use crate::mapping::Error;
use crate::gl::call::{Call, ARRAY_BUFFER, ELEMENT_ARRAY_BUFFER, UNIFORM_BUFFER};
use crate::mapping::Status;

verus! {

/// The two ways of mapping.
pub enum MappingKind {
    Persistent(Status),
    Temporary,
}

/// The OpenGL part of a mapping.
pub struct MappingGate {
    pub kind: MappingKind,
    /// Where the memory is mapped; zero while it is not.
    pub pointer: usize,
}

impl MappingGate {
    /// A temporary mapping, not mapped yet.
    pub fn temporary() -> (gate: MappingGate)
        ensures
            gate.kind is Temporary,
            gate.pointer == 0,
    {
        MappingGate { kind: MappingKind::Temporary, pointer: 0 }
    }

    /// A persistent mapping at `pointer`, with nothing written and nothing
    /// to wait for.
    pub fn persistent(pointer: usize) -> (gate: MappingGate)
        ensures
            gate.kind == MappingKind::Persistent(Status { cpu_wrote: false, gpu_access: None }),
            gate.pointer == pointer,
    {
        MappingGate { kind: MappingKind::Persistent(Status::clean()), pointer }
    }

    /// Whether the memory is mapped at present.
    pub fn is_mapped(&self) -> (r: bool)
        ensures
            r == (self.pointer != 0),
    {
        self.pointer != 0
    }
}

/// The binding point that a buffer of a given role is bound to.
pub open spec fn target_of(role: Role) -> u32 {
    match role {
        Role::Vertex => ARRAY_BUFFER,
        Role::Index => ELEMENT_ARRAY_BUFFER,
        Role::Constant => UNIFORM_BUFFER,
        Role::Staging => ARRAY_BUFFER,
    }
}

/// The binding point that a buffer of a given role is bound to.
pub fn role_to_target(role: Role) -> (target: u32)
    ensures
        target == target_of(role),
{
    match role {
        Role::Vertex => ARRAY_BUFFER,
        Role::Index => ELEMENT_ARRAY_BUFFER,
        Role::Constant => UNIFORM_BUFFER,
        Role::Staging => ARRAY_BUFFER,
    }
}

/// The calls that unmap a buffer which is mapped at `pointer`: none where it
/// is not mapped.
pub open spec fn unmap_calls(pointer: usize, target: u32, buffer: u32) -> Seq<Call> {
    if pointer != 0 {
        seq![Call::BindBuffer { target, buffer }, Call::UnmapBuffer { target }]
    } else {
        seq![]
    }
}

/// Unmaps the buffer if it is mapped: adds the calls for it to `calls` and
/// notes that the memory is mapped no more.
pub fn temporary_ensure_unmapped(
    pointer: &mut usize,
    target: u32,
    buffer: u32,
    calls: &mut Vec<Call>,
)
    ensures
        *final(pointer) == 0,
        final(calls)@ == old(calls)@ + unmap_calls(*old(pointer), target, buffer),
{
    if *pointer != 0 {
        calls.push(Call::BindBuffer { target, buffer });
        calls.push(Call::UnmapBuffer { target });
        *pointer = 0;
        assert(calls@ =~= old(calls)@ + unmap_calls(*old(pointer), target, buffer));
    } else {
        assert(calls@ =~= old(calls)@ + unmap_calls(*old(pointer), target, buffer));
    }
}

/// Notes that the memory of a temporary mapping was mapped at `address`,
/// unless it is mapped already.
pub fn temporary_ensure_mapped(pointer: &mut usize, address: usize)
    ensures
        *final(pointer) == if *old(pointer) == 0 {
            address
        } else {
            *old(pointer)
        },
{
    if *pointer == 0 {
        *pointer = address;
    }
}

/// What the CPU is given when it asks for mapped memory.
pub struct CpuAccess {
    /// Where the memory is mapped.
    pub pointer: usize,
    /// The fence that has to be waited for before the memory is touched. It
    /// is the caller's to give back.
    pub wait_for: Option<Fence<Backend>>,
}

/// Why the CPU cannot have the memory of the buffer in slot `id`, if it
/// cannot: the buffer has no mapping, a submission or another access holds
/// the mapping, or the memory is not mapped at present.
pub open spec fn refusal(a: Buffers, id: int) -> Option<Error> {
    if !mapped(a, id) {
        Some(Error::InvalidAccess)
    } else if busy(a, id) {
        Some(Error::AccessOverlap)
    } else if gate_of(a, id).pointer == 0 {
        Some(Error::NotMapped)
    } else {
        None
    }
}

/// The OpenGL part of a mapping after the CPU was given its memory: the
/// fence is handed out, and a write is noted for the next flush.
pub open spec fn accessed(gate: MappingGate, write: bool) -> MappingGate {
    match gate.kind {
        MappingKind::Persistent(status) => MappingGate {
            kind: MappingKind::Persistent(
                Status { cpu_wrote: status.cpu_wrote || write, gpu_access: None },
            ),
            pointer: gate.pointer,
        },
        MappingKind::Temporary => gate,
    }
}

/// The fence that a mapping has noted.
pub open spec fn noted_fence(gate: MappingGate) -> Option<usize> {
    match gate.kind {
        MappingKind::Persistent(status) => status.gpu_access,
        MappingKind::Temporary => None,
    }
}

/// The slots after the CPU was given the memory of the buffer in slot `id`.
pub open spec fn lent(a: Buffers, id: int, write: bool) -> Buffers {
    marked(regated(a, id, accessed(gate_of(a, id), write)), id, false)
}

impl Share {
    /// Notes that the memory of `buffer` was mapped at `address`, unless it
    /// is mapped already. Says whether the buffer has a mapping at all.
    pub fn map_buffer(&mut self, buffer: &RawBuffer<Backend>, address: usize) -> (found: bool)
        ensures
            final(self).setup() == old(self).setup(),
            final(self).handles == old(self).handles,
            found == mapped(old(self).heap@.buffers, buffer.slot as int),
            final(self).heap@ == if found {
                HeapView {
                    buffers: regated(
                        old(self).heap@.buffers,
                        buffer.slot as int,
                        MappingGate {
                            kind: gate_of(old(self).heap@.buffers, buffer.slot as int).kind,
                            pointer: if gate_of(old(self).heap@.buffers, buffer.slot as int).pointer
                                == 0 {
                                address
                            } else {
                                gate_of(old(self).heap@.buffers, buffer.slot as int).pointer
                            },
                        },
                    ),
                    ..old(self).heap@
                }
            } else {
                old(self).heap@
            },
    {
        let mut found = false;
        match self.heap.buffers.get_mut(buffer.slot) {
            Some(raw) => {
                match &mut raw.mapping {
                    Some(mapping) => {
                        temporary_ensure_mapped(&mut mapping.resource.pointer, address);
                        found = true;
                    },
                    None => {},
                }
            },
            None => {},
        }
        assert(!found ==> self.heap@.buffers =~= old(self).heap@.buffers);
        assert(found ==> self.heap@.buffers =~= regated(
            old(self).heap@.buffers,
            buffer.slot as int,
            MappingGate {
                kind: gate_of(old(self).heap@.buffers, buffer.slot as int).kind,
                pointer: if gate_of(old(self).heap@.buffers, buffer.slot as int).pointer == 0 {
                    address
                } else {
                    gate_of(old(self).heap@.buffers, buffer.slot as int).pointer
                },
            },
        ));
        found
    }

    /// Gives the CPU the mapped memory of `buffer`, to read or to `write`.
    /// The mapping is then in the CPU's hands until it is released. Where
    /// the memory stays mapped, the fence behind which the GPU's last access
    /// lies is handed out to be waited for, and a write is noted for the
    /// next flush.
    pub fn acquire_mapping(&mut self, buffer: &RawBuffer<Backend>, write: bool) -> (r: Result<
        CpuAccess,
        Error,
    >)
        ensures
            final(self).setup() == old(self).setup(),
            final(self).handles == old(self).handles,
            match refusal(old(self).heap@.buffers, buffer.slot as int) {
                Some(reason) => r matches Err(e) && e == reason && final(self).heap@ == old(
                    self,
                ).heap@,
                None => r matches Ok(access) && access.pointer == gate_of(
                    old(self).heap@.buffers,
                    buffer.slot as int,
                ).pointer && access.wait_for == (match noted_fence(
                    gate_of(old(self).heap@.buffers, buffer.slot as int),
                ) {
                    Some(slot) => Some(Fence::<Backend> { slot, marker: PhantomData }),
                    None => None,
                }) && final(self).heap@ == (HeapView {
                    buffers: lent(old(self).heap@.buffers, buffer.slot as int, write),
                    ..old(self).heap@
                }),
            },
    {
        let verdict = match self.heap.buffers.get(buffer.slot) {
            Some(raw) => match &raw.mapping {
                Some(mapping) => if !mapping.accessible {
                    Some(Error::AccessOverlap)
                } else if mapping.resource.pointer == 0 {
                    Some(Error::NotMapped)
                } else {
                    None
                },
                None => Some(Error::InvalidAccess),
            },
            None => Some(Error::InvalidAccess),
        };
        match verdict {
            Some(reason) => {
                return Err(reason);
            },
            None => {},
        }
        let mut pointer: usize = 0;
        let mut noted: Option<usize> = None;
        match self.heap.buffers.get_mut(buffer.slot) {
            Some(raw) => {
                match &mut raw.mapping {
                    Some(mapping) => {
                        pointer = mapping.resource.pointer;
                        noted = match &mut mapping.resource.kind {
                            MappingKind::Persistent(status) => if write {
                                status.cpu_write_access()
                            } else {
                                status.cpu_access()
                            },
                            MappingKind::Temporary => None,
                        };
                        let _ = mapping.take_access();
                    },
                    None => {},
                }
            },
            None => {},
        }
        assert(self.heap@.buffers =~= lent(old(self).heap@.buffers, buffer.slot as int, write));
        let wait_for = match noted {
            Some(slot) => Some(Fence { slot, marker: PhantomData }),
            None => None,
        };
        Ok(CpuAccess { pointer, wait_for })
    }

    /// Takes the mapped memory of `buffer` out of the CPU's hands again.
    pub fn release_mapping(&mut self, buffer: &RawBuffer<Backend>)
        ensures
            final(self).setup() == old(self).setup(),
            final(self).handles == old(self).handles,
            final(self).heap@ == (HeapView {
                buffers: marked(old(self).heap@.buffers, buffer.slot as int, true),
                ..old(self).heap@
            }),
    {
        match self.heap.buffers.get_mut(buffer.slot) {
            Some(raw) => {
                match &mut raw.mapping {
                    Some(mapping) => {
                        mapping.release_access();
                    },
                    None => {},
                }
            },
            None => {},
        }
        assert(self.heap@.buffers =~= marked(old(self).heap@.buffers, buffer.slot as int, true));
    }

    /// Hands in the sync object that was placed for the fence in slot
    /// `slot`. Says whether there is such a fence.
    pub fn fence_placed(&mut self, slot: usize, sync: usize) -> (found: bool)
        ensures
            final(self).setup() == old(self).setup(),
            final(self).handles == old(self).handles,
            found == live(old(self).heap@.fences, slot as int),
            final(self).heap@ == if found {
                HeapView {
                    fences: old(self).heap@.fences.update(
                        slot as int,
                        Some(
                            Slot {
                                value: native::Fence(sync),
                                refs: old(self).heap@.fences[slot as int].unwrap().refs,
                            },
                        ),
                    ),
                    ..old(self).heap@
                }
            } else {
                old(self).heap@
            },
    {
        match self.heap.fences.get_mut(slot) {
            Some(fence) => {
                *fence = native::Fence::new(sync);
                true
            },
            None => false,
        }
    }
}

/// The mapping of the buffer in slot `id` notes the fence in slot `fence`.
pub open spec fn notes(a: Buffers, id: int, fence: usize) -> bool {
    mapped(a, id) && noted_fence(gate_of(a, id)) == Some(fence)
}

/// The OpenGL part of a mapping after the fence that it noted was observed:
/// it notes none.
pub open spec fn unfenced(gate: MappingGate) -> MappingGate {
    match gate.kind {
        MappingKind::Persistent(status) => MappingGate {
            kind: MappingKind::Persistent(Status { cpu_wrote: status.cpu_wrote, gpu_access: None }),
            pointer: gate.pointer,
        },
        MappingKind::Temporary => gate,
    }
}

/// Learning on the buffer in slot `id` that the fence in slot `fence` was
/// observed: a mapping that noted it notes it no more and gives its
/// reference to the fence back. Any other buffer is passed over.
pub open spec fn observe_step(b: Buffers, f: Fences, id: int, fence: usize) -> (Buffers, Fences) {
    if notes(b, id, fence) {
        (regated(b, id, unfenced(gate_of(b, id))), released(f, fence as int))
    } else {
        (b, f)
    }
}

/// Learning on every buffer from slot `from` on that the fence was observed.
pub open spec fn observed(b: Buffers, f: Fences, from: int, fence: usize) -> (Buffers, Fences)
    decreases b.len() - from,
{
    if from < 0 || from >= b.len() {
        (b, f)
    } else {
        let first = observe_step(b, f, from, fence);
        if first.0.len() == b.len() {
            observed(first.0, first.1, from + 1, fence)
        } else {
            (b, f)
        }
    }
}

/// Learns on the buffer in slot `id` that the fence was observed, and says
/// what became of the fence where the reference given back was the last.
fn observe_one(
    buffers: &mut Arena<buffer::Raw<Backend>>,
    fences: &mut Arena<native::Fence>,
    id: usize,
    fence: usize,
) -> (last: Option<native::Fence>)
    ensures
        (final(buffers)@, final(fences)@) == observe_step(
            old(buffers)@,
            old(fences)@,
            id as int,
            fence,
        ),
        final(buffers)@.len() == old(buffers)@.len(),
        last == if notes(old(buffers)@, id as int, fence) && live(old(fences)@, fence as int)
            && !live(final(fences)@, fence as int) {
            Some(old(fences)@[fence as int].unwrap().value)
        } else {
            None
        },
{
    let mut noted = false;
    match buffers.get_mut(id) {
        Some(raw) => {
            match &mut raw.mapping {
                Some(mapping) => {
                    match &mut mapping.resource.kind {
                        MappingKind::Persistent(status) => {
                            let same = match status.gpu_access {
                                Some(slot) => slot == fence,
                                None => false,
                            };
                            if same {
                                let _ = status.cpu_access();
                                noted = true;
                            }
                        },
                        MappingKind::Temporary => {},
                    }
                },
                None => {},
            }
        },
        None => {},
    }
    assert(noted == notes(old(buffers)@, id as int, fence));
    assert(!noted ==> buffers@ =~= old(buffers)@);
    assert(noted ==> buffers@ =~= regated(
        old(buffers)@,
        id as int,
        unfenced(gate_of(old(buffers)@, id as int)),
    ));
    if noted {
        fences.release(fence)
    } else {
        None
    }
}

impl Share {
    /// Learns that the fence in slot `fence` was observed complete: every
    /// mapping that noted it notes it no more and gives its reference to the
    /// fence back, so that the next cleanup can destroy the buffer if
    /// nothing else refers to it. Where the last reference to the fence was
    /// given back, the fence is returned for its sync object to be deleted.
    pub fn fence_observed(&mut self, fence: usize) -> (last: Option<native::Fence>)
        ensures
            final(self).setup() == old(self).setup(),
            final(self).handles == old(self).handles,
            final(self).heap@ == (HeapView {
                buffers: observed(old(self).heap@.buffers, old(self).heap@.fences, 0, fence).0,
                fences: observed(old(self).heap@.buffers, old(self).heap@.fences, 0, fence).1,
                ..old(self).heap@
            }),
            last == if live(old(self).heap@.fences, fence as int) && !live(
                final(self).heap@.fences,
                fence as int,
            ) {
                Some(old(self).heap@.fences[fence as int].unwrap().value)
            } else {
                None
            },
    {
        let n = self.heap.buffers.len();
        let mut last: Option<native::Fence> = None;
        let mut i: usize = 0;
        while i < n
            invariant
                i <= n,
                n == self.heap@.buffers.len(),
                self.setup() == old(self).setup(),
                self.handles == old(self).handles,
                self.heap@ == (HeapView {
                    buffers: self.heap@.buffers,
                    fences: self.heap@.fences,
                    ..old(self).heap@
                }),
                observed(self.heap@.buffers, self.heap@.fences, i as int, fence) == observed(
                    old(self).heap@.buffers,
                    old(self).heap@.fences,
                    0,
                    fence,
                ),
                live(self.heap@.fences, fence as int) ==> live(old(self).heap@.fences, fence as int)
                    && self.heap@.fences[fence as int].unwrap().value == old(
                    self,
                ).heap@.fences[fence as int].unwrap().value,
                last == if live(old(self).heap@.fences, fence as int) && !live(
                    self.heap@.fences,
                    fence as int,
                ) {
                    Some(old(self).heap@.fences[fence as int].unwrap().value)
                } else {
                    None
                },
            decreases n - i,
        {
            match observe_one(&mut self.heap.buffers, &mut self.heap.fences, i, fence) {
                Some(native) => {
                    last = Some(native);
                },
                None => {},
            }
            i = i + 1;
        }
        last
    }
}

/// After a fence was observed no mapping notes it. A mapping that noted it
/// is as it was but for the note, and every other buffer is as it was.
pub proof fn lemma_observed_fence_is_noted_nowhere(
    b: Buffers,
    f: Fences,
    from: int,
    fence: usize,
    id: int,
)
    requires
        0 <= from,
    ensures
        observed(b, f, from, fence).0.len() == b.len(),
        from <= id < b.len() ==> !notes(observed(b, f, from, fence).0, id, fence),
        from <= id < b.len() && notes(b, id, fence) ==> mapped(observed(b, f, from, fence).0, id)
            && gate_of(observed(b, f, from, fence).0, id) == unfenced(gate_of(b, id)),
        0 <= id < b.len() && !notes(b, id, fence) ==> observed(b, f, from, fence).0[id] == b[id],
        0 <= id < from ==> observed(b, f, from, fence).0[id] == b[id],
    decreases b.len() - from,
{
    if from < b.len() {
        let first = observe_step(b, f, from, fence);
        assert(first.0.len() == b.len());
        lemma_observed_fence_is_noted_nowhere(first.0, first.1, from + 1, fence, id);
        if 0 <= id < b.len() && id != from {
            assert(first.0[id] == b[id]);
        }
    }
}

} // verus!
