//! Command pools.
//!
//! A pool hands out command buffers of one kind. What a pool is made of is
//! the backend's affair; the pools here give each kind of queue a pool type
//! of its own and pass everything on to the backend's pool.

use vstd::prelude::*;

verus! {

/// What a backend's pool of command buffers has to offer.
pub trait RawCommandPool: Sized {
    /// The number of command buffers that the pool has room for.
    spec fn capacity(&self) -> nat;

    /// The number of commands recorded in command buffers of the pool.
    spec fn recorded(&self) -> nat;

    /// Resets the pool and its command buffers: nothing stays recorded.
    fn reset(&mut self)
        ensures
            final(self).recorded() == 0,
            final(self).capacity() == old(self).capacity(),
    ;

    /// Makes room for `additional` more command buffers.
    fn reserve(&mut self, additional: usize)
        ensures
            final(self).capacity() >= old(self).capacity() + additional || final(self).capacity()
                >= usize::MAX,
            final(self).recorded() == old(self).recorded(),
    ;
}

/// The pool of a queue that does everything.
pub struct GeneralCommandPool<P: RawCommandPool>(pub P);

impl<P: RawCommandPool> GeneralCommandPool<P> {
    /// Resets the pool and its command buffers: nothing stays recorded.
    pub fn reset(&mut self)
        ensures
            final(self).0.recorded() == 0,
            final(self).0.capacity() == old(self).0.capacity(),
    {
        self.0.reset()
    }

    /// Makes room for `additional` more command buffers.
    pub fn reserve(&mut self, additional: usize)
        ensures
            final(self).0.capacity() >= old(self).0.capacity() + additional
                || final(self).0.capacity() >= usize::MAX,
            final(self).0.recorded() == old(self).0.recorded(),
    {
        self.0.reserve(additional)
    }
}

/// The pool of a queue that draws.
pub struct GraphicsCommandPool<P: RawCommandPool>(pub P);

impl<P: RawCommandPool> GraphicsCommandPool<P> {
    /// Resets the pool and its command buffers: nothing stays recorded.
    pub fn reset(&mut self)
        ensures
            final(self).0.recorded() == 0,
            final(self).0.capacity() == old(self).0.capacity(),
    {
        self.0.reset()
    }

    /// Makes room for `additional` more command buffers.
    pub fn reserve(&mut self, additional: usize)
        ensures
            final(self).0.capacity() >= old(self).0.capacity() + additional
                || final(self).0.capacity() >= usize::MAX,
            final(self).0.recorded() == old(self).0.recorded(),
    {
        self.0.reserve(additional)
    }
}

/// The pool of a queue that computes.
pub struct ComputeCommandPool<P: RawCommandPool>(pub P);

impl<P: RawCommandPool> ComputeCommandPool<P> {
    /// Resets the pool and its command buffers: nothing stays recorded.
    pub fn reset(&mut self)
        ensures
            final(self).0.recorded() == 0,
            final(self).0.capacity() == old(self).0.capacity(),
    {
        self.0.reset()
    }

    /// Makes room for `additional` more command buffers.
    pub fn reserve(&mut self, additional: usize)
        ensures
            final(self).0.capacity() >= old(self).0.capacity() + additional
                || final(self).0.capacity() >= usize::MAX,
            final(self).0.recorded() == old(self).0.recorded(),
    {
        self.0.reserve(additional)
    }
}

/// The pool of a queue that copies.
pub struct TransferCommandPool<P: RawCommandPool>(pub P);

impl<P: RawCommandPool> TransferCommandPool<P> {
    /// Resets the pool and its command buffers: nothing stays recorded.
    pub fn reset(&mut self)
        ensures
            final(self).0.recorded() == 0,
            final(self).0.capacity() == old(self).0.capacity(),
    {
        self.0.reset()
    }

    /// Makes room for `additional` more command buffers.
    pub fn reserve(&mut self, additional: usize)
        ensures
            final(self).0.capacity() >= old(self).0.capacity() + additional
                || final(self).0.capacity() >= usize::MAX,
            final(self).0.recorded() == old(self).0.recorded(),
    {
        self.0.reserve(additional)
    }
}

/// What a backend's pool of command buffers for subpasses has to offer.
pub trait SubpassCommandPool {

}

} // verus!
