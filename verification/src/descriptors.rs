//! The descriptor set layout of the per-frame camera data, and the pool
//! its sets come from.

use vstd::prelude::*;
use crate::teardown::{ObjectKind, Release};

verus! {

/// `VK_DESCRIPTOR_TYPE_UNIFORM_BUFFER`.
pub const DESCRIPTOR_TYPE_UNIFORM_BUFFER: i32 = 6;

/// `VK_SHADER_STAGE_VERTEX_BIT`.
pub const SHADER_STAGE_VERTEX: u32 = 0x1;

/// `VK_SHADER_STAGE_FRAGMENT_BIT`.
pub const SHADER_STAGE_FRAGMENT: u32 = 0x10;

/// How many descriptor sets the pool can hand out, how many kinds of
/// descriptor it is sized for, and how many descriptors of each.
pub const POOL_CAPACITY: u32 = 10;

/// One binding of a descriptor set layout.
#[derive(Clone, Copy, Debug, PartialEq, Eq, Structural)]
pub struct LayoutBinding {
    pub binding: u32,
    pub descriptor_count: u32,
    pub descriptor_type: i32,
    pub stage_flags: u32,
}

/// How many descriptors of one type a pool holds.
#[derive(Clone, Copy, Debug, PartialEq, Eq, Structural)]
pub struct PoolSize {
    pub descriptor_type: i32,
    pub descriptor_count: u32,
}

/// What the descriptor pool is created with.
#[derive(Debug)]
pub struct PoolInfo {
    pub max_sets: u32,
    pub sizes: Vec<PoolSize>,
}

/// The layout of the global descriptor set and the pool for it.
#[derive(Debug)]
pub struct Descriptors {
    pub global_set_layout: u64,
    pub descriptor_pool: u64,
    /// Set once both have been torn down.
    pub released: bool,
}

impl Descriptors {
    /// What a teardown consists of: the pool, then the layout.
    pub open spec fn teardown_steps<A>(&self) -> Seq<Release<A>> {
        seq![
            Release::<A>::Destroy(ObjectKind::DescriptorPool, self.descriptor_pool),
            Release::<A>::Destroy(ObjectKind::DescriptorSetLayout, self.global_set_layout),
        ]
    }

    /// What is still to be torn down: every step of a teardown, or
    /// nothing once it has been done.
    pub open spec fn pending_steps<A>(&self) -> Seq<Release<A>> {
        if self.released {
            Seq::empty()
        } else {
            self.teardown_steps::<A>()
        }
    }

    /// The one binding of the global set: the camera's uniform buffer, read
    /// by the vertex stage.
    pub fn layout_binding() -> (binding: LayoutBinding)
        ensures
            binding == (LayoutBinding {
                binding: 0,
                descriptor_count: 1,
                descriptor_type: DESCRIPTOR_TYPE_UNIFORM_BUFFER,
                stage_flags: SHADER_STAGE_VERTEX,
            }),
    {
        LayoutBinding {
            binding: 0,
            descriptor_count: 1,
            descriptor_type: DESCRIPTOR_TYPE_UNIFORM_BUFFER,
            stage_flags: SHADER_STAGE_VERTEX,
        }
    }

    /// Describes the pool: ten sets, and ten times room for ten uniform
    /// buffers.
    pub fn pool_info() -> (info: PoolInfo)
        ensures
            info.max_sets == POOL_CAPACITY,
            info.sizes@.len() == POOL_CAPACITY,
            forall|i: int|
                0 <= i < info.sizes@.len() ==> #[trigger] info.sizes@[i] == (PoolSize {
                    descriptor_type: DESCRIPTOR_TYPE_UNIFORM_BUFFER,
                    descriptor_count: POOL_CAPACITY,
                }),
    {
        let mut sizes: Vec<PoolSize> = Vec::new();
        let mut i: u32 = 0;
        while i < POOL_CAPACITY
            invariant
                i <= POOL_CAPACITY,
                sizes@.len() == i,
                forall|j: int|
                    0 <= j < i ==> #[trigger] sizes@[j] == (PoolSize {
                        descriptor_type: DESCRIPTOR_TYPE_UNIFORM_BUFFER,
                        descriptor_count: POOL_CAPACITY,
                    }),
            decreases POOL_CAPACITY - i,
        {
            sizes.push(
                PoolSize {
                    descriptor_type: DESCRIPTOR_TYPE_UNIFORM_BUFFER,
                    descriptor_count: POOL_CAPACITY,
                },
            );
            i = i + 1;
        }
        PoolInfo { max_sets: POOL_CAPACITY, sizes }
    }

    /// Holds the layout and the pool that were created.
    pub fn new(global_set_layout: u64, descriptor_pool: u64) -> (descriptors: Descriptors)
        ensures
            descriptors.global_set_layout == global_set_layout,
            descriptors.descriptor_pool == descriptor_pool,
            !descriptors.released,
    {
        Descriptors { global_set_layout, descriptor_pool, released: false }
    }

    /// Tears both down. The first call returns the steps to carry out, in
    /// order; any later call returns none.
    pub fn cleanup<A>(&mut self) -> (steps: Vec<Release<A>>)
        ensures
            final(self).released,
            final(self).global_set_layout == old(self).global_set_layout,
            final(self).descriptor_pool == old(self).descriptor_pool,
            steps@ == old(self).pending_steps::<A>(),
    {
        let mut steps: Vec<Release<A>> = Vec::new();
        if self.released {
            return steps;
        }
        self.released = true;
        steps.push(Release::Destroy(ObjectKind::DescriptorPool, self.descriptor_pool));
        steps.push(Release::Destroy(ObjectKind::DescriptorSetLayout, self.global_set_layout));
        proof {
            assert(steps@ =~= old(self).teardown_steps::<A>());
        }
        steps
    }
}

} // verus!
