//! Buffer memory that the CPU can see, and who may touch it when.
//!
//! A mapping is in one of two hands: free for the CPU to take, or held by a
//! submission whose commands read or write the buffer. A mapping that stays
//! mapped across submissions also carries a [`Status`]: whether the CPU has
//! written since the last flush, and the fence behind which the GPU's last
//! access lies.

use vstd::prelude::*;
use crate::Backend;

verus! {

/// Why mapped memory cannot be had.
#[derive(Clone, Copy, Debug, PartialEq, Eq, Structural)]
pub enum Error {
    /// The buffer has no mapping.
    InvalidAccess,
    /// A submission holds the mapping.
    AccessOverlap,
    /// The memory is not mapped at present.
    NotMapped,
}

/// A buffer's mapping in its pool.
pub struct Raw<B: Backend> {
    /// The backend's part of the mapping.
    pub resource: B::Mapping,
    /// Whether the mapping is free to take.
    pub accessible: bool,
}

impl<B: Backend> Raw<B> {
    /// A mapping that is free to take.
    pub fn new(resource: B::Mapping) -> (raw: Raw<B>)
        ensures
            raw.resource == resource,
            raw.accessible,
    {
        Raw { resource, accessible: true }
    }

    /// Takes the mapping if it is free, and says whether it was.
    pub fn take_access(&mut self) -> (taken: bool)
        ensures
            taken == old(self).accessible,
            !final(self).accessible,
            final(self).resource == old(self).resource,
    {
        let taken = self.accessible;
        self.accessible = false;
        taken
    }

    /// Sets the mapping free.
    pub fn release_access(&mut self)
        ensures
            final(self).accessible,
            final(self).resource == old(self).resource,
    {
        self.accessible = true;
    }
}

/// What has happened to a mapping that stays mapped.
pub struct Status {
    /// The CPU has written since the last flush.
    pub cpu_wrote: bool,
    /// The slot of the fence behind which the GPU's last access lies, until
    /// the CPU has waited for it. It counts as one reference to that fence.
    pub gpu_access: Option<usize>,
}

impl Status {
    /// Nothing written, nothing to wait for.
    pub fn clean() -> (status: Status)
        ensures
            !status.cpu_wrote,
            status.gpu_access.is_none(),
    {
        Status { cpu_wrote: false, gpu_access: None }
    }

    /// The CPU is about to read: hands out the fence that it has to wait
    /// for first, if there is one.
    pub fn cpu_access(&mut self) -> (wait_for: Option<usize>)
        ensures
            wait_for == old(self).gpu_access,
            final(self).gpu_access.is_none(),
            final(self).cpu_wrote == old(self).cpu_wrote,
    {
        self.gpu_access.take()
    }

    /// The CPU is about to write: hands out the fence that it has to wait
    /// for first, if there is one, and notes the write.
    pub fn cpu_write_access(&mut self) -> (wait_for: Option<usize>)
        ensures
            wait_for == old(self).gpu_access,
            final(self).gpu_access.is_none(),
            final(self).cpu_wrote,
    {
        self.cpu_wrote = true;
        self.gpu_access.take()
    }

    /// The GPU's access lies behind `fence` from now on. The fence that was
    /// noted before comes back.
    pub fn gpu_access(&mut self, fence: usize) -> (previous: Option<usize>)
        ensures
            previous == old(self).gpu_access,
            final(self).gpu_access == Some(fence),
            final(self).cpu_wrote == old(self).cpu_wrote,
    {
        let previous = self.gpu_access.take();
        self.gpu_access = Some(fence);
        previous
    }

    /// Says whether a flush is due, and notes it as done.
    pub fn ensure_flushed(&mut self) -> (due: bool)
        ensures
            due == old(self).cpu_wrote,
            !final(self).cpu_wrote,
            final(self).gpu_access == old(self).gpu_access,
    {
        let due = self.cpu_wrote;
        self.cpu_wrote = false;
        due
    }
}

} // verus!
