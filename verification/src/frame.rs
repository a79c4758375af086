//! Frame slots: the synchronization objects, the command buffer and the
//! camera buffer that one frame works with while another is still on the
//! device.

use vstd::prelude::*;
use crate::buffer::{create_buffer, AllocatedBuffer, BufferPlan, BufferUsage, MemoryUsage};
use crate::device::Physical;
use crate::error::EngineError;
use crate::mesh::Transform;
use crate::teardown::{
    concat,
    concat_laws,
    concat_take_next,
    frees,
    frees_of_sum,
    concat_keeps_touching,
    nothing_freed_laws,
    only_touching,
    orderly,
    orderly_sum,
    total,
    ObjectKind,
    Release,
};

verus! {

/// `VK_COMMAND_POOL_CREATE_RESET_COMMAND_BUFFER_BIT`.
pub const COMMAND_POOL_RESET_COMMAND_BUFFER: u32 = 0x2;

/// `VK_COMMAND_BUFFER_LEVEL_PRIMARY`.
pub const COMMAND_BUFFER_LEVEL_PRIMARY: i32 = 0;

/// Bytes of the camera data of one frame: three 4x4 matrices of floats.
pub const CAMERA_DATA_BYTES: u64 = 192;

/// The fewest frame slots that let the host record while the device draws.
pub const MIN_FRAME_SLOTS: usize = 2;

/// What the camera buffer of a frame holds.
#[derive(Clone, Copy, Debug, PartialEq, Eq)]
pub struct GPUCameraData {
    pub view: Transform,
    pub projection: Transform,
    pub viewproj: Transform,
}

/// Where a frame slot stands.
#[derive(Clone, Copy, Debug, PartialEq, Eq, Structural)]
pub enum SlotState {
    /// Nothing of the slot is in use: its fence has been waited for since
    /// its commands were last submitted, or they never were.
    Idle,
    /// The host is recording the slot's command buffer.
    Recording,
    /// The slot's commands were submitted, and its fence has not been
    /// waited for since.
    Submitted,
}

/// What a command pool is created with.
#[derive(Clone, Copy, Debug, PartialEq, Eq, Structural)]
pub struct CommandPoolInfo {
    pub queue_family_index: u32,
    pub flags: u32,
}

/// What the objects of one frame slot are created with. The semaphores
/// need nothing.
#[derive(Clone, Copy, Debug, PartialEq, Eq, Structural)]
pub struct FramePlan {
    /// The fence starts signaled, so that the first wait for it returns.
    pub fence_signaled: bool,
    pub command_pool: CommandPoolInfo,
    pub command_buffer_count: u32,
    pub command_buffer_level: i32,
    pub camera_buffer: BufferPlan,
}

/// One frame slot.
#[derive(Debug)]
pub struct Frame<A> {
    /// Signaled when the image to draw to has been acquired.
    pub present_semaphore: u64,
    /// Signaled when rendering is complete.
    pub render_semaphore: u64,
    /// Signaled when the device is done with the slot's commands.
    pub render_fence: u64,
    pub command_pool: u64,
    pub command_buffer: u64,
    pub camera_buffer: AllocatedBuffer<A>,
    pub state: SlotState,
}

/// The frame slots, cycled through frame after frame.
#[derive(Debug)]
pub struct Frames<A> {
    pub frames: Vec<Frame<A>>,
    /// Set once the slots have been torn down.
    pub released: bool,
}

/// The slot of a frame: the frame's number modulo the number of slots.
pub open spec fn slot_of(framenumber: i64, slots: nat) -> int
    recommends
        slots > 0,
{
    framenumber as int % slots as int
}

/// The slots go round: the frame after a frame uses the slot after that
/// frame's slot, and the frame after the one that used the last slot uses
/// the first.
pub proof fn slots_go_round(framenumber: i64, slots: nat)
    requires
        slots > 0,
        framenumber < i64::MAX,
    ensures
        0 <= slot_of(framenumber, slots) < slots,
        slot_of((framenumber + 1) as i64, slots) == (if slot_of(framenumber, slots) + 1 == slots {
            0
        } else {
            slot_of(framenumber, slots) + 1
        }),
{
    let f = framenumber as int;
    let n = slots as int;
    vstd::arithmetic::div_mod::lemma_fundamental_div_mod(f, n);
    vstd::arithmetic::div_mod::lemma_mod_bound(f, n);
    let q = f / n;
    let r = f % n;
    if r + 1 == n {
        assert(f + 1 == (q + 1) * n + 0) by (nonlinear_arith)
            requires
                f == n * q + r,
                r + 1 == n,
        ;
        vstd::arithmetic::div_mod::lemma_fundamental_div_mod_converse(f + 1, n, q + 1, 0);
    } else {
        assert(f + 1 == q * n + (r + 1)) by (nonlinear_arith)
            requires
                f == n * q + r,
        ;
        vstd::arithmetic::div_mod::lemma_fundamental_div_mod_converse(f + 1, n, q, r + 1);
    }
}

impl<A> Frame<A> {
    /// What a teardown of this slot consists of: the semaphores, the fence,
    /// the command pool, with which the command buffer goes, and the camera
    /// buffer with its memory.
    pub open spec fn teardown_steps(self) -> Seq<Release<A>> {
        seq![
            Release::<A>::Destroy(ObjectKind::Semaphore, self.render_semaphore),
            Release::<A>::Destroy(ObjectKind::Semaphore, self.present_semaphore),
            Release::<A>::Destroy(ObjectKind::Fence, self.render_fence),
            Release::<A>::Destroy(ObjectKind::CommandPool, self.command_pool),
        ] + self.camera_buffer.release_steps()
    }

    /// Tearing a slot down frees exactly the block of its camera buffer,
    /// and only after the buffer is destroyed.
    pub proof fn teardown_laws(self)
        ensures
            frees(self.teardown_steps()) == self.camera_buffer.blocks_held(),
            orderly(self.teardown_steps()),
    {
        let head = seq![
            Release::<A>::Destroy(ObjectKind::Semaphore, self.render_semaphore),
            Release::<A>::Destroy(ObjectKind::Semaphore, self.present_semaphore),
            Release::<A>::Destroy(ObjectKind::Fence, self.render_fence),
            Release::<A>::Destroy(ObjectKind::CommandPool, self.command_pool),
        ];
        nothing_freed_laws(head);
        self.camera_buffer.release_laws();
        frees_of_sum(head, self.camera_buffer.release_steps());
        orderly_sum(head, self.camera_buffer.release_steps());
    }

    /// The same slot as `other`, apart from the memory of the camera
    /// buffer: the same objects, standing where the other stands.
    pub open spec fn same_slot(self, other: Self) -> bool {
        &&& self.present_semaphore == other.present_semaphore
        &&& self.render_semaphore == other.render_semaphore
        &&& self.render_fence == other.render_fence
        &&& self.command_pool == other.command_pool
        &&& self.command_buffer == other.command_buffer
        &&& self.state == other.state
        &&& self.camera_buffer.buffer == other.camera_buffer.buffer
    }

    /// Tearing a slot down only destroys and frees.
    pub proof fn teardown_touches(self)
        ensures
            only_touching(self.teardown_steps()),
    {
    }

    /// A slot that has not been used yet.
    pub fn new(
        present_semaphore: u64,
        render_semaphore: u64,
        render_fence: u64,
        command_pool: u64,
        command_buffer: u64,
        camera_buffer: AllocatedBuffer<A>,
    ) -> (frame: Self)
        ensures
            frame.present_semaphore == present_semaphore,
            frame.render_semaphore == render_semaphore,
            frame.render_fence == render_fence,
            frame.command_pool == command_pool,
            frame.command_buffer == command_buffer,
            frame.camera_buffer == camera_buffer,
            frame.state == SlotState::Idle,
    {
        Frame {
            present_semaphore,
            render_semaphore,
            render_fence,
            command_pool,
            command_buffer,
            camera_buffer,
            state: SlotState::Idle,
        }
    }

    /// Appends the steps that tear this slot down and leaves its camera
    /// buffer without memory.
    pub fn release(&mut self, steps: &mut Vec<Release<A>>)
        ensures
            final(self).same_slot(*old(self)),
            final(self).camera_buffer.allocation is Released,
            final(steps)@ == old(steps)@ + old(self).teardown_steps(),
    {
        steps.push(Release::Destroy(ObjectKind::Semaphore, self.render_semaphore));
        steps.push(Release::Destroy(ObjectKind::Semaphore, self.present_semaphore));
        steps.push(Release::Destroy(ObjectKind::Fence, self.render_fence));
        steps.push(Release::Destroy(ObjectKind::CommandPool, self.command_pool));
        self.camera_buffer.release(steps);
        proof {
            assert(steps@ =~= old(steps)@ + old(self).teardown_steps());
        }
    }
}

/// The teardown steps of each slot, in the order of the slots.
pub open spec fn slot_teardowns<A>(frames: Seq<Frame<A>>) -> Seq<Seq<Release<A>>> {
    frames.map_values(|frame: Frame<A>| frame.teardown_steps())
}

impl<A> Frames<A> {
    /// What a teardown of all slots consists of.
    pub open spec fn teardown_steps(&self) -> Seq<Release<A>> {
        concat(slot_teardowns(self.frames@))
    }

    /// What is still to be torn down: every step of a teardown, or
    /// nothing once it has been done.
    pub open spec fn pending_steps(&self) -> Seq<Release<A>> {
        if self.released {
            Seq::empty()
        } else {
            self.teardown_steps()
        }
    }

    /// How many memory blocks the slots hold.
    pub open spec fn blocks_held(&self) -> nat {
        total(self.frames@.map_values(|frame: Frame<A>| frame.camera_buffer.blocks_held()))
    }

    /// How many memory blocks are still to be freed.
    pub open spec fn live_blocks(&self) -> nat {
        if self.released {
            0
        } else {
            self.blocks_held()
        }
    }

    /// Tearing the slots down frees exactly the blocks they hold, each
    /// only after its buffer is destroyed.
    pub proof fn teardown_laws(&self)
        ensures
            frees(self.pending_steps()) == self.live_blocks(),
            orderly(self.pending_steps()),
    {
        if self.released {
            nothing_freed_laws(Seq::<Release<A>>::empty());
        } else {
            let parts = slot_teardowns(self.frames@);
            concat_laws(parts);
            assert forall|i: int| 0 <= i < parts.len() implies orderly(#[trigger] parts[i]) by {
                self.frames@[i].teardown_laws();
            }
            let counts = parts.map_values(|part: Seq<Release<A>>| frees(part));
            let held = self.frames@.map_values(
                |frame: Frame<A>| frame.camera_buffer.blocks_held(),
            );
            assert forall|i: int| 0 <= i < counts.len() implies counts[i] == held[i] by {
                self.frames@[i].teardown_laws();
            }
            assert(counts =~= held);
        }
    }

    /// Tearing the slots down only destroys and frees.
    pub proof fn teardown_touches(&self)
        ensures
            only_touching(self.pending_steps()),
    {
        let parts = slot_teardowns(self.frames@);
        assert forall|i: int| 0 <= i < parts.len() implies only_touching(#[trigger] parts[i]) by {
            self.frames@[i].teardown_touches();
        }
        concat_keeps_touching(parts);
    }

    /// How many slots there are.
    pub open spec fn slots(&self) -> nat {
        self.frames@.len()
    }

    /// Describes what to create for each slot.
    pub fn frame_plan(physical: &Physical) -> (plan: FramePlan)
        ensures
            plan.fence_signaled,
            plan.command_pool == (CommandPoolInfo {
                queue_family_index: physical.graphics_queue_family,
                flags: COMMAND_POOL_RESET_COMMAND_BUFFER,
            }),
            plan.command_buffer_count == 1,
            plan.command_buffer_level == COMMAND_BUFFER_LEVEL_PRIMARY,
            plan.camera_buffer.info.size == CAMERA_DATA_BYTES,
            plan.camera_buffer.info.usage == BufferUsage::UniformBuffer,
            plan.camera_buffer.request.size == CAMERA_DATA_BYTES,
            plan.camera_buffer.request.usage == MemoryUsage::Upload,
            plan.camera_buffer.request.align_mask == 1,
            plan.camera_buffer.request.memory_types == 0xffff_ffff,
            plan.camera_buffer.bind_offset == 0,
    {
        FramePlan {
            fence_signaled: true,
            command_pool: CommandPoolInfo {
                queue_family_index: physical.graphics_queue_family,
                flags: COMMAND_POOL_RESET_COMMAND_BUFFER,
            },
            command_buffer_count: 1,
            command_buffer_level: COMMAND_BUFFER_LEVEL_PRIMARY,
            camera_buffer: create_buffer(
                CAMERA_DATA_BYTES,
                BufferUsage::UniformBuffer,
                MemoryUsage::Upload,
            ),
        }
    }

    /// Takes the slots that were created. Fails, and hands the slots back,
    /// exactly when there are not `frame_count` of them or fewer than two.
    pub fn new(frame_count: u32, frames: Vec<Frame<A>>) -> (slots: Result<
        Frames<A>,
        (EngineError, Vec<Frame<A>>),
    >)
        ensures
            slots is Ok <==> frames@.len() == frame_count && frame_count >= MIN_FRAME_SLOTS,
            slots is Err ==> slots->Err_0 == (EngineError::Initialization, frames),
            slots is Ok ==> slots->Ok_0.frames == frames && !slots->Ok_0.released,
    {
        if frames.len() < MIN_FRAME_SLOTS || frames.len() > u32::MAX as usize || frames.len() as u32
            != frame_count {
            return Err((EngineError::Initialization, frames));
        }
        Ok(Frames { frames, released: false })
    }

    /// The slot that a frame uses.
    pub fn slot(&self, framenumber: i64) -> (slot: usize)
        requires
            self.frames@.len() > 0,
        ensures
            slot == slot_of(framenumber, self.slots()),
            slot < self.frames@.len(),
    {
        let count: u64 = self.frames.len() as u64;
        if framenumber >= 0 {
            ((framenumber as u64) % count) as usize
        } else {
            // -(framenumber + 1) is the distance below -1, which lies in
            // the last slot.
            let below: u64 = (-(framenumber + 1)) as u64;
            let back: u64 = below % count;
            proof {
                assert((framenumber as int) == -(below as int) - 1);
                assert((framenumber as int) % (count as int) == count - 1 - back) by (nonlinear_arith)
                    requires
                        count > 0,
                        back == below % count,
                        (framenumber as int) == -(below as int) - 1,
                {
                    let q = (below as int) / (count as int);
                    assert(below as int == q * count + back) by {
                        vstd::arithmetic::div_mod::lemma_fundamental_div_mod(
                            below as int,
                            count as int,
                        );
                    }
                    assert(framenumber as int == (-q - 1) * count + (count - 1 - back));
                    vstd::arithmetic::div_mod::lemma_fundamental_div_mod_converse(
                        framenumber as int,
                        count as int,
                        -q - 1,
                        count - 1 - back,
                    );
                }
            }
            (count - 1 - back) as usize
        }
    }

    /// The slot's objects for a frame.
    pub fn get_frame(&self, framenumber: i64) -> (frame: &Frame<A>)
        requires
            self.frames@.len() > 0,
        ensures
            *frame == self.frames@[slot_of(framenumber, self.slots())],
    {
        let slot = self.slot(framenumber);
        &self.frames[slot]
    }

    /// Where each slot stands, in the order of the slots.
    pub open spec fn states(&self) -> Seq<SlotState> {
        self.frames@.map_values(|frame: Frame<A>| frame.state)
    }

    /// Tears the slots down, the first slot first. The first call returns
    /// the steps to carry out, in order; any later call returns none.
    pub fn cleanup(&mut self) -> (steps: Vec<Release<A>>)
        ensures
            final(self).released,
            final(self).frames@.len() == old(self).frames@.len(),
            forall|i: int|
                0 <= i < final(self).frames@.len() ==> (#[trigger] final(self).frames@[i]).same_slot(
                    old(self).frames@[i],
                ),
            steps@ == old(self).pending_steps(),
            !old(self).released ==> forall|i: int|
                0 <= i < final(self).frames@.len() ==> (
                #[trigger] final(self).frames@[i]).camera_buffer.allocation is Released,
            old(self).released ==> final(self).frames == old(self).frames,
    {
        let mut steps: Vec<Release<A>> = Vec::new();
        if self.released {
            return steps;
        }
        self.released = true;
        let mut i: usize = 0;
        while i < self.frames.len()
            invariant
                i <= self.frames@.len(),
                self.released,
                self.frames@.len() == old(self).frames@.len(),
                !old(self).released,
                steps@ == concat(slot_teardowns(old(self).frames@).take(i as int)),
                forall|j: int| i <= j < self.frames@.len() ==> self.frames@[j] == old(self).frames@[j],
                forall|j: int|
                    0 <= j < i ==> (#[trigger] self.frames@[j]).camera_buffer.allocation is Released,
                forall|j: int|
                    0 <= j < i ==> (#[trigger] self.frames@[j]).same_slot(old(self).frames@[j]),
            decreases self.frames@.len() - i,
        {
            proof {
                concat_take_next(slot_teardowns(old(self).frames@), i as int);
            }
            self.frames[i].release(&mut steps);
            i = i + 1;
        }
        proof {
            let parts = slot_teardowns(old(self).frames@);
            assert(parts.take(i as int) =~= parts);
        }
        steps
    }
}

} // verus!
