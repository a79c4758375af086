//! The semaphores and the fence of an engine that draws one frame at a
//! time.

use vstd::prelude::*;
use crate::teardown::{destroy_each, push_destroy_each, ObjectKind, Release};

verus! {

/// Semaphores and fences.
#[derive(Debug)]
pub struct SyncStructs {
    pub semaphores: Vec<u64>,
    pub fences: Vec<u64>,
    /// Set once they have been destroyed.
    pub released: bool,
}

impl SyncStructs {
    /// What is still to be torn down: every semaphore, then every fence.
    pub open spec fn pending_steps<A>(&self) -> Seq<Release<A>> {
        if self.released {
            Seq::empty()
        } else {
            destroy_each::<A>(ObjectKind::Semaphore, self.semaphores@) + destroy_each::<A>(
                ObjectKind::Fence,
                self.fences@,
            )
        }
    }

    /// Holds the semaphore that rendering signals, the semaphore that
    /// acquiring an image signals, and the fence of the frame, which was
    /// created signaled.
    pub fn new(render_semaphore: u64, present_semaphore: u64, render_fence: u64) -> (sync:
        SyncStructs)
        ensures
            sync.semaphores@ == seq![render_semaphore, present_semaphore],
            sync.fences@ == seq![render_fence],
            !sync.released,
    {
        let mut semaphores: Vec<u64> = Vec::new();
        semaphores.push(render_semaphore);
        semaphores.push(present_semaphore);
        let mut fences: Vec<u64> = Vec::new();
        fences.push(render_fence);
        proof {
            assert(semaphores@ =~= seq![render_semaphore, present_semaphore]);
            assert(fences@ =~= seq![render_fence]);
        }
        SyncStructs { semaphores, fences, released: false }
    }

    /// Destroys them. The first call returns the steps to carry out, in
    /// order; any later call returns none.
    pub fn cleanup<A>(&mut self) -> (steps: Vec<Release<A>>)
        ensures
            final(self).released,
            final(self).semaphores == old(self).semaphores,
            final(self).fences == old(self).fences,
            steps@ == old(self).pending_steps::<A>(),
    {
        let mut steps: Vec<Release<A>> = Vec::new();
        if self.released {
            return steps;
        }
        self.released = true;
        push_destroy_each(&mut steps, ObjectKind::Semaphore, &self.semaphores);
        push_destroy_each(&mut steps, ObjectKind::Fence, &self.fences);
        steps
    }
}

} // verus!
