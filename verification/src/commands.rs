//! A command pool with the command buffers allocated from it, for an
//! engine that records every frame into the same buffer.

use vstd::prelude::*;
use crate::device::Physical;
use crate::frame::{CommandPoolInfo, COMMAND_POOL_RESET_COMMAND_BUFFER};
use crate::teardown::{ObjectKind, Release};

verus! {

/// A command pool and its command buffers.
#[derive(Debug)]
pub struct Command {
    pub pool: u64,
    pub buffer: Vec<u64>,
    /// Set once the pool has been destroyed.
    pub released: bool,
}

impl Command {
    /// What is still to be torn down: the pool, with which its command
    /// buffers go.
    pub open spec fn pending_steps<A>(&self) -> Seq<Release<A>> {
        if self.released {
            Seq::empty()
        } else {
            seq![Release::<A>::Destroy(ObjectKind::CommandPool, self.pool)]
        }
    }

    /// Describes the pool: for the graphics queue family, with command
    /// buffers that can be reset one by one.
    pub fn pool_info(physical: &Physical) -> (info: CommandPoolInfo)
        ensures
            info.queue_family_index == physical.graphics_queue_family,
            info.flags == COMMAND_POOL_RESET_COMMAND_BUFFER,
    {
        CommandPoolInfo {
            queue_family_index: physical.graphics_queue_family,
            flags: COMMAND_POOL_RESET_COMMAND_BUFFER,
        }
    }

    /// Holds the pool and the command buffers that were allocated from it.
    pub fn new(pool: u64, buffer: Vec<u64>) -> (command: Command)
        ensures
            command.pool == pool,
            command.buffer == buffer,
            !command.released,
    {
        Command { pool, buffer, released: false }
    }

    /// Destroys the pool. The first call returns the step to carry out;
    /// any later call returns none.
    pub fn cleanup<A>(&mut self) -> (steps: Vec<Release<A>>)
        ensures
            final(self).released,
            final(self).pool == old(self).pool,
            final(self).buffer == old(self).buffer,
            steps@ == old(self).pending_steps::<A>(),
    {
        let mut steps: Vec<Release<A>> = Vec::new();
        if self.released {
            return steps;
        }
        self.released = true;
        steps.push(Release::Destroy(ObjectKind::CommandPool, self.pool));
        proof {
            assert(steps@ =~= old(self).pending_steps::<A>());
        }
        steps
    }
}

} // verus!
