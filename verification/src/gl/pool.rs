//! The command pool of the OpenGL backend: command buffers are lists of
//! commands, and the pool is the list of them.

use vstd::prelude::*;
use crate::gl::command::{DataBuffer, SubmitInfo};

verus! {

/// The number of commands in the command buffers `buffers`.
pub open spec fn commands_in(buffers: Seq<SubmitInfo>) -> nat
    decreases buffers.len(),
{
    if buffers.len() == 0 {
        0
    } else {
        buffers[0].buf@.len() + commands_in(buffers.drop_first())
    }
}

/// The command buffers of one queue.
pub struct RawCommandPool {
    pub buffers: Vec<SubmitInfo>,
    pub room: usize,
}

/// Nothing is recorded in any of the command buffers.
pub open spec fn all_blank(buffers: Seq<SubmitInfo>) -> bool {
    forall|i: int|
        0 <= i < buffers.len() ==> (#[trigger] buffers[i]).buf@.len() == 0 && buffers[i].data@.len()
            == 0
}

proof fn lemma_blank_has_no_commands(buffers: Seq<SubmitInfo>)
    requires
        all_blank(buffers),
    ensures
        commands_in(buffers) == 0,
    decreases buffers.len(),
{
    if buffers.len() > 0 {
        assert(buffers[0].buf@.len() == 0);
        let rest = buffers.drop_first();
        assert forall|i: int| 0 <= i < rest.len() implies (#[trigger] rest[i]).buf@.len() == 0
            && rest[i].data@.len() == 0 by {
            assert(rest[i] == buffers[i + 1]);
        }
        lemma_blank_has_no_commands(rest);
    }
}

impl RawCommandPool {
    /// A pool with room for `room` command buffers and none made yet.
    pub fn new(room: usize) -> (pool: RawCommandPool)
        ensures
            pool.buffers@.len() == 0,
            pool.room == room,
    {
        RawCommandPool { buffers: Vec::new(), room }
    }

    /// A new command buffer with nothing recorded, and its place in the pool.
    pub fn acquire_command_buffer(&mut self) -> (index: usize)
        ensures
            index == old(self).buffers@.len(),
            final(self).buffers@.len() == old(self).buffers@.len() + 1,
            forall|i: int|
                0 <= i < old(self).buffers@.len() ==> final(self).buffers@[i] == old(
                    self,
                ).buffers@[i],
            final(self).buffers@[index as int].buf@.len() == 0,
            final(self).buffers@[index as int].data@.len() == 0,
            final(self).room == old(self).room,
    {
        let index = self.buffers.len();
        self.buffers.push(SubmitInfo { buf: Vec::new(), data: DataBuffer::new() });
        index
    }
}

impl crate::pool::RawCommandPool for RawCommandPool {
    open spec fn capacity(&self) -> nat {
        self.room as nat
    }

    open spec fn recorded(&self) -> nat {
        commands_in(self.buffers@)
    }

    fn reset(&mut self)
        ensures
            final(self).buffers@.len() == old(self).buffers@.len(),
            all_blank(final(self).buffers@),
    {
        let n = self.buffers.len();
        let mut i: usize = 0;
        while i < n
            invariant
                i <= n,
                n == self.buffers@.len(),
                self.room == old(self).room,
                forall|k: int|
                    0 <= k < i ==> (#[trigger] self.buffers@[k]).buf@.len() == 0
                        && self.buffers@[k].data@.len() == 0,
            decreases n - i,
        {
            self.buffers[i].buf.clear();
            self.buffers[i].data.reset();
            i = i + 1;
        }
        proof {
            lemma_blank_has_no_commands(self.buffers@);
        }
    }

    fn reserve(&mut self, additional: usize)
        ensures
            final(self).room == if old(self).room + additional <= usize::MAX {
                (old(self).room + additional) as usize
            } else {
                usize::MAX
            },
            final(self).buffers == old(self).buffers,
    {
        self.room = if self.room > usize::MAX - additional {
            usize::MAX
        } else {
            self.room + additional
        };
    }
}

} // verus!
