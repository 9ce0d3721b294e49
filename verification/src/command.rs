//! What command buffers have in common across backends: their level, and
//! the account of mapped buffers that their commands touch.
//!
//! While commands are recorded, every buffer with a mapping that a command
//! reads or writes is noted in an [`AccessInfo`]. On submission the mappings
//! of all of them are taken in one step, so that the CPU cannot get at the
//! memory while the GPU works on it; where one of them is in other hands
//! already, none is taken and the submission fails. The [`AccessGuard`]
//! stands for the mappings taken, and sets them free again.

use std::marker::PhantomData;
use vstd::prelude::*;
use crate::arena::{live, Arena, Slot};
use crate::buffer;
use crate::handle::RawBuffer;
use crate::Backend;

verus! {

/// Whether a command buffer is submitted by itself or runs from within
/// another.
#[derive(Clone, Copy, Debug, PartialEq, Eq, Structural)]
pub enum Level {
    Primary,
    Secondary,
}

/// Why a submission was not made.
#[derive(Clone, Copy, Debug, PartialEq, Eq, Structural)]
pub enum SubmissionError {
    /// A mapped buffer that the commands touch is in other hands.
    AccessOverlap,
    /// A mapped buffer that the commands touch is mapped in a way that the
    /// backend does not use.
    MappingMismatch,
}

/// What a submission gives: a value, or the reason why it was not made.
pub type SubmissionResult<T> = Result<T, SubmissionError>;

/// Slot `id` holds a buffer that has a mapping.
pub open spec fn mapped<B: Backend>(a: Seq<Option<Slot<buffer::Raw<B>>>>, id: int) -> bool {
    live(a, id) && a[id].unwrap().value.mapping.is_some()
}

/// Slot `id` holds a buffer whose mapping is in other hands.
pub open spec fn busy<B: Backend>(a: Seq<Option<Slot<buffer::Raw<B>>>>, id: int) -> bool {
    mapped(a, id) && !a[id].unwrap().value.mapping.unwrap().accessible
}

/// One of the buffers in `ids` has its mapping in other hands.
pub open spec fn any_busy<B: Backend>(a: Seq<Option<Slot<buffer::Raw<B>>>>, ids: Seq<usize>) -> bool {
    exists|k: int| 0 <= k < ids.len() && busy(a, #[trigger] ids[k] as int)
}

/// The slots after the mapping of the buffer in slot `id` was marked as
/// free (`accessible`) or as taken.
pub open spec fn marked<B: Backend>(
    a: Seq<Option<Slot<buffer::Raw<B>>>>,
    id: int,
    accessible: bool,
) -> Seq<Option<Slot<buffer::Raw<B>>>> {
    if mapped(a, id) {
        let slot = a[id].unwrap();
        let raw = slot.value;
        a.update(
            id,
            Some(
                Slot {
                    value: buffer::Raw {
                        resource: raw.resource,
                        info: raw.info,
                        mapping: Some(
                            crate::mapping::Raw { resource: raw.mapping.unwrap().resource, accessible },
                        ),
                    },
                    refs: slot.refs,
                },
            ),
        )
    } else {
        a
    }
}

/// The slots after the mappings of all buffers in `ids` were marked.
pub open spec fn marked_all<B: Backend>(
    a: Seq<Option<Slot<buffer::Raw<B>>>>,
    ids: Seq<usize>,
    accessible: bool,
) -> Seq<Option<Slot<buffer::Raw<B>>>>
    decreases ids.len(),
{
    if ids.len() == 0 {
        a
    } else {
        marked_all(marked(a, ids[0] as int, accessible), ids.drop_first(), accessible)
    }
}

/// Marks the mapping of the buffer in slot `id`.
fn mark<B: Backend>(buffers: &mut Arena<buffer::Raw<B>>, id: usize, accessible: bool)
    ensures
        final(buffers)@ == marked(old(buffers)@, id as int, accessible),
{
    match buffers.get_mut(id) {
        Some(raw) => {
            match &mut raw.mapping {
                Some(mapping) => {
                    mapping.accessible = accessible;
                },
                None => {},
            }
            assert(buffers@ =~= marked(old(buffers)@, id as int, accessible));
        },
        None => {},
    }
}

/// Marks the mappings of all buffers in `ids`.
fn mark_all<B: Backend>(buffers: &mut Arena<buffer::Raw<B>>, ids: &Vec<usize>, accessible: bool)
    ensures
        final(buffers)@ == marked_all(old(buffers)@, ids@, accessible),
{
    let n = ids.len();
    let mut i: usize = 0;
    assert(ids@.subrange(0, n as int) =~= ids@);
    while i < n
        invariant
            i <= n,
            n == ids@.len(),
            marked_all(buffers@, ids@.subrange(i as int, n as int), accessible) == marked_all(
                old(buffers)@,
                ids@,
                accessible,
            ),
        decreases n - i,
    {
        let ghost rest = ids@.subrange(i as int, n as int);
        assert(rest[0] == ids@[i as int]);
        assert(rest.drop_first() =~= ids@.subrange(i as int + 1, n as int));
        mark(buffers, ids[i], accessible);
        i = i + 1;
    }
    assert(ids@.subrange(n as int, n as int) =~= Seq::<usize>::empty());
}

/// Whether one of the buffers in `ids` has its mapping in other hands.
fn find_busy<B: Backend>(buffers: &Arena<buffer::Raw<B>>, ids: &Vec<usize>) -> (found: bool)
    ensures
        found == any_busy(buffers@, ids@),
{
    let n = ids.len();
    let mut i: usize = 0;
    while i < n
        invariant
            i <= n,
            n == ids@.len(),
            forall|k: int| 0 <= k < i ==> !busy(buffers@, #[trigger] ids@[k] as int),
        decreases n - i,
    {
        match buffers.get(ids[i]) {
            Some(raw) => {
                match &raw.mapping {
                    Some(mapping) => {
                        if !mapping.accessible {
                            return true;
                        }
                    },
                    None => {},
                }
            },
            None => {},
        }
        i = i + 1;
    }
    false
}

/// Whether `id` stands in `ids`.
fn listed(ids: &Vec<usize>, id: usize) -> (found: bool)
    ensures
        found == ids@.contains(id),
{
    let n = ids.len();
    let mut i: usize = 0;
    while i < n
        invariant
            i <= n,
            n == ids@.len(),
            forall|k: int| 0 <= k < i ==> ids@[k] != id,
        decreases n - i,
    {
        if ids[i] == id {
            return true;
        }
        i = i + 1;
    }
    false
}

/// The list `ids` with `id` at its end, unless it stands in the list.
pub open spec fn with_id(ids: Seq<usize>, id: usize) -> Seq<usize> {
    if ids.contains(id) {
        ids
    } else {
        ids.push(id)
    }
}

/// The mapped buffers that the commands of a batch read and write, by slot.
pub struct AccessInfo<B: Backend> {
    pub mapped_reads: Vec<usize>,
    pub mapped_writes: Vec<usize>,
    pub marker: PhantomData<B>,
}

impl<B: Backend> AccessInfo<B> {
    /// No buffer touched.
    pub fn new() -> (info: AccessInfo<B>)
        ensures
            info.mapped_reads@ == Seq::<usize>::empty(),
            info.mapped_writes@ == Seq::<usize>::empty(),
    {
        AccessInfo { mapped_reads: Vec::new(), mapped_writes: Vec::new(), marker: PhantomData }
    }

    /// Forgets every buffer noted.
    pub fn clear(&mut self)
        ensures
            final(self).mapped_reads@ == Seq::<usize>::empty(),
            final(self).mapped_writes@ == Seq::<usize>::empty(),
    {
        self.mapped_reads.clear();
        self.mapped_writes.clear();
    }

    /// Notes that a command reads `buffer`, where the buffer has a mapping.
    pub fn buffer_read(&mut self, buffers: &Arena<buffer::Raw<B>>, buffer: &RawBuffer<B>)
        ensures
            final(self).mapped_reads@ == if mapped(buffers@, buffer.slot as int) {
                with_id(old(self).mapped_reads@, buffer.slot)
            } else {
                old(self).mapped_reads@
            },
            final(self).mapped_writes@ == old(self).mapped_writes@,
    {
        let is_mapped = match buffers.get(buffer.slot) {
            Some(raw) => raw.is_mapped(),
            None => false,
        };
        if is_mapped && !listed(&self.mapped_reads, buffer.slot) {
            self.mapped_reads.push(buffer.slot);
        }
    }

    /// Notes that a command writes `buffer`, where the buffer has a mapping.
    pub fn buffer_write(&mut self, buffers: &Arena<buffer::Raw<B>>, buffer: &RawBuffer<B>)
        ensures
            final(self).mapped_writes@ == if mapped(buffers@, buffer.slot as int) {
                with_id(old(self).mapped_writes@, buffer.slot)
            } else {
                old(self).mapped_writes@
            },
            final(self).mapped_reads@ == old(self).mapped_reads@,
    {
        let is_mapped = match buffers.get(buffer.slot) {
            Some(raw) => raw.is_mapped(),
            None => false,
        };
        if is_mapped && !listed(&self.mapped_writes, buffer.slot) {
            self.mapped_writes.push(buffer.slot);
        }
    }

    /// Whether a mapped buffer is read.
    pub fn has_mapped_reads(&self) -> (r: bool)
        ensures
            r == (self.mapped_reads@.len() > 0),
    {
        self.mapped_reads.len() > 0
    }

    /// Whether a mapped buffer is written.
    pub fn has_mapped_writes(&self) -> (r: bool)
        ensures
            r == (self.mapped_writes@.len() > 0),
    {
        self.mapped_writes.len() > 0
    }

    /// Whether one of the buffers noted has its mapping in other hands.
    pub fn is_busy(&self, buffers: &Arena<buffer::Raw<B>>) -> (r: bool)
        ensures
            r == any_busy(buffers@, self.mapped_reads@ + self.mapped_writes@),
    {
        let read_busy = find_busy(buffers, &self.mapped_reads);
        let write_busy = find_busy(buffers, &self.mapped_writes);
        proof {
            let all = self.mapped_reads@ + self.mapped_writes@;
            let n = self.mapped_reads@.len() as int;
            if any_busy(buffers@, self.mapped_reads@) {
                let k = choose|k: int|
                    0 <= k < self.mapped_reads@.len() && busy(
                        buffers@,
                        #[trigger] self.mapped_reads@[k] as int,
                    );
                assert(all[k] == self.mapped_reads@[k]);
            }
            if any_busy(buffers@, self.mapped_writes@) {
                let k = choose|k: int|
                    0 <= k < self.mapped_writes@.len() && busy(
                        buffers@,
                        #[trigger] self.mapped_writes@[k] as int,
                    );
                assert(all[n + k] == self.mapped_writes@[k]);
            }
            if any_busy(buffers@, all) {
                let k = choose|k: int| 0 <= k < all.len() && busy(buffers@, #[trigger] all[k] as int);
                if k < n {
                    assert(self.mapped_reads@[k] == all[k]);
                } else {
                    assert(self.mapped_writes@[k - n] == all[k]);
                }
            }
        }
        read_busy || write_busy
    }

    /// Takes the mappings of all buffers noted, or none: where one of them is
    /// in other hands, nothing is taken and the submission cannot be made.
    pub fn take_accesses(&self, buffers: &mut Arena<buffer::Raw<B>>) -> (r: SubmissionResult<
        AccessGuard<B>,
    >)
        ensures
            r.is_err() == any_busy(old(buffers)@, self.mapped_reads@ + self.mapped_writes@),
            r.is_err() ==> r == Err::<AccessGuard<B>, SubmissionError>(SubmissionError::AccessOverlap)
                && final(buffers)@ == old(buffers)@,
            r.is_ok() ==> r.unwrap().reads@ == self.mapped_reads@ && r.unwrap().writes@
                == self.mapped_writes@ && final(buffers)@ == marked_all(
                marked_all(old(buffers)@, self.mapped_reads@, false),
                self.mapped_writes@,
                false,
            ),
    {
        if self.is_busy(buffers) {
            return Err(SubmissionError::AccessOverlap);
        }
        mark_all(buffers, &self.mapped_reads, false);
        mark_all(buffers, &self.mapped_writes, false);
        let reads = copy_ids(&self.mapped_reads);
        let writes = copy_ids(&self.mapped_writes);
        Ok(AccessGuard { reads, writes, marker: PhantomData })
    }
}

/// A copy of a list of slots.
fn copy_ids(ids: &Vec<usize>) -> (copy: Vec<usize>)
    ensures
        copy@ == ids@,
{
    let mut copy: Vec<usize> = Vec::new();
    let n = ids.len();
    let mut i: usize = 0;
    while i < n
        invariant
            i <= n,
            n == ids@.len(),
            copy@ == ids@.subrange(0, i as int),
        decreases n - i,
    {
        copy.push(ids[i]);
        assert(ids@.subrange(0, i as int + 1) =~= ids@.subrange(0, i as int).push(ids@[i as int]));
        i = i + 1;
    }
    assert(ids@.subrange(0, n as int) =~= ids@);
    copy
}

/// The mappings that a submission has taken: those of the buffers that its
/// commands read, and of those that they write.
pub struct AccessGuard<B: Backend> {
    pub reads: Vec<usize>,
    pub writes: Vec<usize>,
    pub marker: PhantomData<B>,
}

impl<B: Backend> AccessGuard<B> {
    /// Whether a mapped buffer is read.
    pub fn has_mapped_reads(&self) -> (r: bool)
        ensures
            r == (self.reads@.len() > 0),
    {
        self.reads.len() > 0
    }

    /// Whether a mapped buffer is written.
    pub fn has_mapped_writes(&self) -> (r: bool)
        ensures
            r == (self.writes@.len() > 0),
    {
        self.writes.len() > 0
    }

    /// Sets the mappings free again.
    pub fn release(self, buffers: &mut Arena<buffer::Raw<B>>)
        ensures
            final(buffers)@ == marked_all(
                marked_all(old(buffers)@, self.reads@, true),
                self.writes@,
                true,
            ),
    {
        mark_all(buffers, &self.reads, true);
        mark_all(buffers, &self.writes, true);
    }
}

} // verus!
