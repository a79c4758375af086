//! The render pass with its colour and depth attachment, the one depth
//! image that every frame reuses, and one framebuffer per image of the
//! presentation chain.

use vstd::prelude::*;
use crate::buffer::{AllocatedImage, AllocationRequest, MemoryUsage};
use crate::device::{Extent, Physical, FORMAT_D32_SFLOAT};
use crate::error::EngineError;
use crate::swapchain::{
    ImageViewInfo,
    Swapchain,
    IMAGE_ASPECT_DEPTH,
    IMAGE_USAGE_DEPTH_STENCIL_ATTACHMENT,
};
use crate::teardown::{
    destroy_each,
    frees,
    frees_of_sum,
    nothing_freed_laws,
    orderly,
    orderly_sum,
    push_destroy_each,
    ObjectKind,
    Release,
};

verus! {

/// `VK_ATTACHMENT_LOAD_OP_CLEAR`.
pub const LOAD_OP_CLEAR: i32 = 1;

/// `VK_ATTACHMENT_LOAD_OP_DONT_CARE`.
pub const LOAD_OP_DONT_CARE: i32 = 2;

/// `VK_ATTACHMENT_STORE_OP_STORE`.
pub const STORE_OP_STORE: i32 = 0;

/// `VK_ATTACHMENT_STORE_OP_DONT_CARE`.
pub const STORE_OP_DONT_CARE: i32 = 1;

/// `VK_IMAGE_LAYOUT_UNDEFINED`.
pub const LAYOUT_UNDEFINED: i32 = 0;

/// `VK_IMAGE_LAYOUT_COLOR_ATTACHMENT_OPTIMAL`.
pub const LAYOUT_COLOR_ATTACHMENT_OPTIMAL: i32 = 2;

/// `VK_IMAGE_LAYOUT_DEPTH_STENCIL_ATTACHMENT_OPTIMAL`.
pub const LAYOUT_DEPTH_STENCIL_ATTACHMENT_OPTIMAL: i32 = 3;

/// `VK_IMAGE_LAYOUT_PRESENT_SRC_KHR`.
pub const LAYOUT_PRESENT_SRC: i32 = 1000001002;

/// What the depth image is created with: a two-dimensional image of one
/// mip level, one layer and one sample per pixel, tiled as the device
/// likes best.
#[derive(Clone, Copy, Debug, PartialEq, Eq, Structural)]
pub struct ImageInfo {
    pub format: i32,
    pub extent: Extent,
    pub depth: u32,
    pub usage: u32,
}

/// What the device says a raw image needs of its memory.
#[derive(Clone, Copy, Debug, PartialEq, Eq, Structural)]
pub struct MemoryRequirements {
    pub size: u64,
    pub alignment: u64,
    pub memory_type_bits: u32,
}

/// One attachment of the render pass, with one sample per pixel.
#[derive(Clone, Copy, Debug, PartialEq, Eq, Structural)]
pub struct AttachmentInfo {
    pub format: i32,
    pub load_op: i32,
    pub store_op: i32,
    pub stencil_load_op: i32,
    pub stencil_store_op: i32,
    pub initial_layout: i32,
    pub final_layout: i32,
}

/// Which attachment a subpass uses, and in which layout.
#[derive(Clone, Copy, Debug, PartialEq, Eq, Structural)]
pub struct AttachmentRef {
    pub attachment: u32,
    pub layout: i32,
}

/// What the render pass is created with: its attachments in order, and its
/// single graphics subpass.
#[derive(Clone, Copy, Debug, PartialEq, Eq, Structural)]
pub struct RenderPassInfo {
    pub color: AttachmentInfo,
    pub depth: AttachmentInfo,
    pub color_ref: AttachmentRef,
    pub depth_ref: AttachmentRef,
}

/// What a framebuffer is created with: one layer of the given extent over
/// a colour view and the depth view.
#[derive(Clone, Copy, Debug, PartialEq, Eq, Structural)]
pub struct FramebufferInfo {
    pub render_pass: u64,
    pub color_view: u64,
    pub depth_view: u64,
    pub extent: Extent,
    pub layers: u32,
}

/// The colour attachment: cleared when the pass begins, stored when it
/// ends, and left ready to be presented.
pub open spec fn color_attachment(format: i32) -> AttachmentInfo {
    AttachmentInfo {
        format,
        load_op: LOAD_OP_CLEAR,
        store_op: STORE_OP_STORE,
        stencil_load_op: LOAD_OP_DONT_CARE,
        stencil_store_op: STORE_OP_DONT_CARE,
        initial_layout: LAYOUT_UNDEFINED,
        final_layout: LAYOUT_PRESENT_SRC,
    }
}

/// The depth attachment: 32-bit float depth, cleared when the pass begins
/// and stored when it ends.
pub open spec fn depth_attachment() -> AttachmentInfo {
    AttachmentInfo {
        format: FORMAT_D32_SFLOAT,
        load_op: LOAD_OP_CLEAR,
        store_op: STORE_OP_STORE,
        stencil_load_op: LOAD_OP_CLEAR,
        stencil_store_op: STORE_OP_DONT_CARE,
        initial_layout: LAYOUT_UNDEFINED,
        final_layout: LAYOUT_DEPTH_STENCIL_ATTACHMENT_OPTIMAL,
    }
}

/// The framebuffer for one view of the presentation chain.
pub open spec fn framebuffer_for(
    render_pass: u64,
    color_view: u64,
    depth_view: u64,
    extent: Extent,
) -> FramebufferInfo {
    FramebufferInfo { render_pass, color_view, depth_view, extent, layers: 1 }
}

/// The render pass and the render targets it draws to.
#[derive(Debug)]
pub struct RenderPass<A> {
    pub framebuffers: Vec<u64>,
    pub render_pass: u64,
    pub depth_image: AllocatedImage<A>,
    pub depth_view: u64,
    /// The extent of the depth image and of every framebuffer.
    pub extent: Extent,
    /// Set once the render targets have been torn down.
    pub released: bool,
}

impl<A> RenderPass<A> {
    /// Whether these render targets were built for that chain: one
    /// framebuffer for each of its images, of the chain's extent.
    pub open spec fn fits(&self, swapchain: &Swapchain) -> bool {
        &&& self.framebuffers@.len() == swapchain.image_views@.len()
        &&& self.extent == swapchain.extent
    }

    /// What a teardown consists of: the framebuffers, the render pass, the
    /// depth view, and then the depth image with its memory.
    pub open spec fn teardown_steps(&self) -> Seq<Release<A>> {
        destroy_each::<A>(ObjectKind::Framebuffer, self.framebuffers@) + seq![
            Release::<A>::Destroy(ObjectKind::RenderPass, self.render_pass),
            Release::<A>::Destroy(ObjectKind::ImageView, self.depth_view),
        ] + self.depth_image.release_steps()
    }

    /// What is still to be torn down: every step of a teardown, or
    /// nothing once it has been done.
    pub open spec fn pending_steps(&self) -> Seq<Release<A>> {
        if self.released {
            Seq::empty()
        } else {
            self.teardown_steps()
        }
    }

    /// How many memory blocks are still to be freed.
    pub open spec fn live_blocks(&self) -> nat {
        if self.released {
            0
        } else {
            self.depth_image.blocks_held()
        }
    }

    /// Tearing the render targets down frees exactly the block of the
    /// depth image, and only after the image is destroyed.
    pub proof fn teardown_laws(&self)
        ensures
            frees(self.pending_steps()) == self.live_blocks(),
            orderly(self.pending_steps()),
    {
        if self.released {
            nothing_freed_laws(Seq::<Release<A>>::empty());
        } else {
            let head = destroy_each::<A>(ObjectKind::Framebuffer, self.framebuffers@) + seq![
                Release::<A>::Destroy(ObjectKind::RenderPass, self.render_pass),
                Release::<A>::Destroy(ObjectKind::ImageView, self.depth_view),
            ];
            nothing_freed_laws(head);
            self.depth_image.release_laws();
            frees_of_sum(head, self.depth_image.release_steps());
            orderly_sum(head, self.depth_image.release_steps());
        }
    }

    /// Describes the depth image: as large as the surface is now.
    pub fn depth_image_info(physical: &Physical) -> (info: ImageInfo)
        ensures
            info.format == FORMAT_D32_SFLOAT,
            info.extent == physical.surface_caps.current_extent,
            info.depth == 1,
            info.usage == IMAGE_USAGE_DEPTH_STENCIL_ATTACHMENT,
    {
        ImageInfo {
            format: FORMAT_D32_SFLOAT,
            extent: physical.surface_caps.current_extent,
            depth: 1,
            usage: IMAGE_USAGE_DEPTH_STENCIL_ATTACHMENT,
        }
    }

    /// Asks for the depth image's memory: of the size and from the memory
    /// types that the device requires, with the alignment it reports as the
    /// request's mask, from memory that only the device needs to reach.
    pub fn depth_memory_request(requirements: MemoryRequirements) -> (request: AllocationRequest)
        ensures
            request.size == requirements.size,
            request.align_mask == requirements.alignment,
            request.usage == MemoryUsage::FastDeviceAccess,
            request.memory_types == requirements.memory_type_bits,
    {
        AllocationRequest {
            size: requirements.size,
            align_mask: requirements.alignment,
            usage: MemoryUsage::FastDeviceAccess,
            memory_types: requirements.memory_type_bits,
        }
    }

    /// Describes the view of the depth image.
    pub fn depth_view_info(image: u64) -> (info: ImageViewInfo)
        ensures
            info.image == image,
            info.format == FORMAT_D32_SFLOAT,
            info.aspect_mask == IMAGE_ASPECT_DEPTH,
    {
        ImageViewInfo { image, format: FORMAT_D32_SFLOAT, aspect_mask: IMAGE_ASPECT_DEPTH }
    }

    /// Describes the render pass: the colour attachment in the surface's
    /// format first, the depth attachment second.
    pub fn create_info(physical: &Physical) -> (info: RenderPassInfo)
        ensures
            info.color == color_attachment(physical.format.format),
            info.depth == depth_attachment(),
            info.color_ref == (AttachmentRef {
                attachment: 0,
                layout: LAYOUT_COLOR_ATTACHMENT_OPTIMAL,
            }),
            info.depth_ref == (AttachmentRef {
                attachment: 1,
                layout: LAYOUT_DEPTH_STENCIL_ATTACHMENT_OPTIMAL,
            }),
    {
        RenderPassInfo {
            color: AttachmentInfo {
                format: physical.format.format,
                load_op: LOAD_OP_CLEAR,
                store_op: STORE_OP_STORE,
                stencil_load_op: LOAD_OP_DONT_CARE,
                stencil_store_op: STORE_OP_DONT_CARE,
                initial_layout: LAYOUT_UNDEFINED,
                final_layout: LAYOUT_PRESENT_SRC,
            },
            depth: AttachmentInfo {
                format: FORMAT_D32_SFLOAT,
                load_op: LOAD_OP_CLEAR,
                store_op: STORE_OP_STORE,
                stencil_load_op: LOAD_OP_CLEAR,
                stencil_store_op: STORE_OP_DONT_CARE,
                initial_layout: LAYOUT_UNDEFINED,
                final_layout: LAYOUT_DEPTH_STENCIL_ATTACHMENT_OPTIMAL,
            },
            color_ref: AttachmentRef { attachment: 0, layout: LAYOUT_COLOR_ATTACHMENT_OPTIMAL },
            depth_ref: AttachmentRef {
                attachment: 1,
                layout: LAYOUT_DEPTH_STENCIL_ATTACHMENT_OPTIMAL,
            },
        }
    }

    /// Describes the framebuffers: one for each view of the chain, in the
    /// chain's order, each over that view and the one depth view.
    pub fn framebuffer_infos(swapchain: &Swapchain, render_pass: u64, depth_view: u64) -> (infos:
        Vec<FramebufferInfo>)
        ensures
            infos@.len() == swapchain.image_views@.len(),
            forall|i: int|
                0 <= i < infos@.len() ==> #[trigger] infos@[i] == framebuffer_for(
                    render_pass,
                    swapchain.image_views@[i],
                    depth_view,
                    swapchain.extent,
                ),
    {
        let mut infos: Vec<FramebufferInfo> = Vec::new();
        let mut i: usize = 0;
        while i < swapchain.image_views.len()
            invariant
                i <= swapchain.image_views@.len(),
                infos@.len() == i,
                forall|j: int|
                    0 <= j < i ==> #[trigger] infos@[j] == framebuffer_for(
                        render_pass,
                        swapchain.image_views@[j],
                        depth_view,
                        swapchain.extent,
                    ),
            decreases swapchain.image_views@.len() - i,
        {
            infos.push(
                FramebufferInfo {
                    render_pass,
                    color_view: swapchain.image_views[i],
                    depth_view,
                    extent: swapchain.extent,
                    layers: 1,
                },
            );
            i = i + 1;
        }
        infos
    }

    /// Puts the render targets together from what was created for them;
    /// `depth_extent` is the extent that the depth image was created with.
    /// Fails exactly when the framebuffers are not as many as the chain's
    /// views, or the depth image is not of the chain's extent; the depth
    /// image then comes back with the error, still bound.
    pub fn new(
        swapchain: &Swapchain,
        render_pass: u64,
        depth_image: AllocatedImage<A>,
        depth_extent: Extent,
        depth_view: u64,
        framebuffers: Vec<u64>,
    ) -> (targets: Result<RenderPass<A>, (EngineError, AllocatedImage<A>)>)
        ensures
            targets is Ok <==> framebuffers@.len() == swapchain.image_views@.len() && depth_extent
                == swapchain.extent,
            targets is Err ==> targets->Err_0 == (EngineError::Initialization, depth_image),
            targets is Ok ==> {
                let t = targets->Ok_0;
                &&& t.fits(swapchain)
                &&& !t.released
                &&& t.framebuffers == framebuffers
                &&& t.render_pass == render_pass
                &&& t.depth_image == depth_image
                &&& t.depth_view == depth_view
                &&& t.extent == depth_extent
            },
    {
        if framebuffers.len() != swapchain.image_views.len() || depth_extent != swapchain.extent {
            return Err((EngineError::Initialization, depth_image));
        }
        Ok(
            RenderPass {
                framebuffers,
                render_pass,
                depth_image,
                depth_view,
                extent: depth_extent,
                released: false,
            },
        )
    }

    /// Tears the render targets down. The first call returns the steps to
    /// carry out, in order; any later call returns none.
    pub fn cleanup(&mut self) -> (steps: Vec<Release<A>>)
        ensures
            final(self).released,
            final(self).framebuffers == old(self).framebuffers,
            final(self).render_pass == old(self).render_pass,
            final(self).depth_view == old(self).depth_view,
            final(self).extent == old(self).extent,
            final(self).depth_image.image == old(self).depth_image.image,
            steps@ == old(self).pending_steps(),
            !old(self).released ==> final(self).depth_image.allocation is Released,
            old(self).released ==> final(self).depth_image == old(self).depth_image,
    {
        let mut steps: Vec<Release<A>> = Vec::new();
        if self.released {
            return steps;
        }
        self.released = true;
        push_destroy_each(&mut steps, ObjectKind::Framebuffer, &self.framebuffers);
        steps.push(Release::Destroy(ObjectKind::RenderPass, self.render_pass));
        steps.push(Release::Destroy(ObjectKind::ImageView, self.depth_view));
        self.depth_image.release(&mut steps);
        proof {
            assert(steps@ =~= old(self).teardown_steps());
        }
        steps
    }
}

} // verus!
