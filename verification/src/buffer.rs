//! Buffers and images together with the memory behind them.
//!
//! The sub-allocator hands out memory blocks; a block belongs to exactly
//! one buffer or image from the moment it is bound until the one routine
//! that destroys the raw object and gives the block back, in that order.
//! The block's type `A` is the sub-allocator's own: the engine only holds
//! it and hands it on.

use vstd::prelude::*;
use crate::teardown::{frees, frees_push, orderly, ObjectKind, Release};

verus! {

/// What memory is asked for: memory the host can map and write, with or
/// without the hint that it is written once and read by the device, or
/// memory that only the device reaches.
#[derive(Clone, Copy, Debug, PartialEq, Eq, Structural)]
pub enum MemoryUsage {
    HostAccess,
    Upload,
    FastDeviceAccess,
}

/// What a buffer is used for.
#[derive(Clone, Copy, Debug, PartialEq, Eq, Structural)]
pub enum BufferUsage {
    VertexBuffer,
    UniformBuffer,
}

/// A request to the sub-allocator.
#[derive(Clone, Copy, Debug, PartialEq, Eq, Structural)]
pub struct AllocationRequest {
    pub size: u64,
    pub align_mask: u64,
    pub usage: MemoryUsage,
    /// One bit per memory type the block may come from.
    pub memory_types: u32,
}

/// What a raw buffer is created with.
#[derive(Clone, Copy, Debug, PartialEq, Eq, Structural)]
pub struct BufferInfo {
    pub size: u64,
    pub usage: BufferUsage,
}

/// How a buffer comes to be: the block to ask for, the raw buffer to
/// create, and where to bind it, counted in bytes from the start of the
/// block.
#[derive(Clone, Copy, Debug, PartialEq, Eq, Structural)]
pub struct BufferPlan {
    pub request: AllocationRequest,
    pub info: BufferInfo,
    pub bind_offset: u64,
}

/// The memory behind a buffer or an image: a block that is bound to it,
/// or nothing any more.
#[derive(Debug, PartialEq, Eq)]
pub enum Backing<A> {
    Bound(A),
    Released,
}

/// A buffer and its memory.
#[derive(Debug, PartialEq, Eq)]
pub struct AllocatedBuffer<A> {
    pub buffer: u64,
    pub allocation: Backing<A>,
}

/// An image and its memory.
#[derive(Debug, PartialEq, Eq)]
pub struct AllocatedImage<A> {
    pub image: u64,
    pub allocation: Backing<A>,
}

/// Plans a buffer of `alloc_size` bytes: a block of at least that size from
/// any memory type, aligned to two bytes, and the raw buffer bound at its
/// start.
pub fn create_buffer(alloc_size: u64, usage: BufferUsage, memory_usage: MemoryUsage) -> (plan:
    BufferPlan)
    ensures
        plan == (BufferPlan {
            request: AllocationRequest {
                size: alloc_size,
                align_mask: 1,
                usage: memory_usage,
                memory_types: 0xffff_ffff,
            },
            info: BufferInfo { size: alloc_size, usage },
            bind_offset: 0,
        }),
{
    BufferPlan {
        request: AllocationRequest {
            size: alloc_size,
            align_mask: 1,
            usage: memory_usage,
            memory_types: 0xffff_ffff,
        },
        info: BufferInfo { size: alloc_size, usage },
        bind_offset: 0,
    }
}

impl<A> AllocatedBuffer<A> {
    /// A buffer that has just been bound to its block.
    pub fn new(buffer: u64, block: A) -> (bound: Self)
        ensures
            bound.buffer == buffer,
            bound.allocation == Backing::Bound(block),
    {
        AllocatedBuffer { buffer, allocation: Backing::Bound(block) }
    }

    /// How many blocks this buffer still holds: one or none.
    pub open spec fn blocks_held(self) -> nat {
        if self.allocation is Bound {
            1
        } else {
            0
        }
    }

    /// What releasing this buffer consists of: the raw buffer is destroyed,
    /// then its block is freed. A buffer already released needs nothing.
    pub open spec fn release_steps(self) -> Seq<Release<A>> {
        match self.allocation {
            Backing::Bound(block) => seq![
                Release::Destroy(ObjectKind::Buffer, self.buffer),
                Release::Free(block),
            ],
            Backing::Released => Seq::empty(),
        }
    }

    /// Releasing frees exactly the block that is held, and only after the
    /// raw buffer is destroyed.
    pub proof fn release_laws(self)
        ensures
            frees(self.release_steps()) == self.blocks_held(),
            orderly(self.release_steps()),
    {
        match self.allocation {
            Backing::Bound(block) => {
                let empty = Seq::<Release<A>>::empty();
                let destroy = Release::<A>::Destroy(ObjectKind::Buffer, self.buffer);
                frees_push(empty, destroy);
                frees_push(empty.push(destroy), Release::Free(block));
                assert(empty.push(destroy).push(Release::Free(block)) =~= self.release_steps());
            },
            Backing::Released => {},
        }
    }

    /// Releases the buffer: appends its release steps to `steps` and leaves
    /// it without memory, so that a second call appends nothing.
    pub fn release(&mut self, steps: &mut Vec<Release<A>>)
        ensures
            final(self).buffer == old(self).buffer,
            final(self).allocation is Released,
            final(steps)@ == old(steps)@ + old(self).release_steps(),
    {
        let mut taken = Backing::Released;
        std::mem::swap(&mut self.allocation, &mut taken);
        match taken {
            Backing::Bound(block) => {
                steps.push(Release::Destroy(ObjectKind::Buffer, self.buffer));
                steps.push(Release::Free(block));
                proof {
                    assert(steps@ =~= old(steps)@ + old(self).release_steps());
                }
            },
            Backing::Released => {
                proof {
                    assert(steps@ =~= old(steps)@ + old(self).release_steps());
                }
            },
        }
    }
}

impl<A> AllocatedImage<A> {
    /// An image that has just been bound to its block.
    pub fn new(image: u64, block: A) -> (bound: Self)
        ensures
            bound.image == image,
            bound.allocation == Backing::Bound(block),
    {
        AllocatedImage { image, allocation: Backing::Bound(block) }
    }

    /// How many blocks this image still holds: one or none.
    pub open spec fn blocks_held(self) -> nat {
        if self.allocation is Bound {
            1
        } else {
            0
        }
    }

    /// What releasing this image consists of: the raw image is destroyed,
    /// then its block is freed. An image already released needs nothing.
    pub open spec fn release_steps(self) -> Seq<Release<A>> {
        match self.allocation {
            Backing::Bound(block) => seq![
                Release::Destroy(ObjectKind::Image, self.image),
                Release::Free(block),
            ],
            Backing::Released => Seq::empty(),
        }
    }

    /// Releasing frees exactly the block that is held, and only after the
    /// raw image is destroyed.
    pub proof fn release_laws(self)
        ensures
            frees(self.release_steps()) == self.blocks_held(),
            orderly(self.release_steps()),
    {
        match self.allocation {
            Backing::Bound(block) => {
                let empty = Seq::<Release<A>>::empty();
                let destroy = Release::<A>::Destroy(ObjectKind::Image, self.image);
                frees_push(empty, destroy);
                frees_push(empty.push(destroy), Release::Free(block));
                assert(empty.push(destroy).push(Release::Free(block)) =~= self.release_steps());
            },
            Backing::Released => {},
        }
    }

    /// Releases the image: appends its release steps to `steps` and leaves
    /// it without memory, so that a second call appends nothing.
    pub fn release(&mut self, steps: &mut Vec<Release<A>>)
        ensures
            final(self).image == old(self).image,
            final(self).allocation is Released,
            final(steps)@ == old(steps)@ + old(self).release_steps(),
    {
        let mut taken = Backing::Released;
        std::mem::swap(&mut self.allocation, &mut taken);
        match taken {
            Backing::Bound(block) => {
                steps.push(Release::Destroy(ObjectKind::Image, self.image));
                steps.push(Release::Free(block));
                proof {
                    assert(steps@ =~= old(steps)@ + old(self).release_steps());
                }
            },
            Backing::Released => {
                proof {
                    assert(steps@ =~= old(steps)@ + old(self).release_steps());
                }
            },
        }
    }
}

} // verus!
