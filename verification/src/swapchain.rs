//! The presentation chain: the images the display shows and one view of
//! each.
//!
//! The images belong to the presentation subsystem and go with the chain;
//! the views are the engine's own and are destroyed before it. A chain is
//! never patched: when the surface changes it is torn down and built anew.

use vstd::prelude::*;
use crate::device::{Extent, Physical, PRESENT_MODE_FIFO_RELAXED};
use crate::error::EngineError;
use crate::teardown::{destroy_each, push_destroy_each, ObjectKind, Release};

verus! {

/// `VK_IMAGE_USAGE_COLOR_ATTACHMENT_BIT`.
pub const IMAGE_USAGE_COLOR_ATTACHMENT: u32 = 0x10;

/// `VK_IMAGE_USAGE_DEPTH_STENCIL_ATTACHMENT_BIT`.
pub const IMAGE_USAGE_DEPTH_STENCIL_ATTACHMENT: u32 = 0x20;

/// `VK_SHARING_MODE_EXCLUSIVE`.
pub const SHARING_MODE_EXCLUSIVE: i32 = 0;

/// `VK_COMPOSITE_ALPHA_OPAQUE_BIT_KHR`.
pub const COMPOSITE_ALPHA_OPAQUE: u32 = 0x1;

/// `VK_IMAGE_ASPECT_COLOR_BIT`.
pub const IMAGE_ASPECT_COLOR: u32 = 0x1;

/// `VK_IMAGE_ASPECT_DEPTH_BIT`.
pub const IMAGE_ASPECT_DEPTH: u32 = 0x2;

/// What the presentation chain is created with.
#[derive(Clone, Copy, Debug, PartialEq, Eq, Structural)]
pub struct SwapchainInfo {
    pub surface: u64,
    pub min_image_count: u32,
    pub image_format: i32,
    pub image_color_space: i32,
    pub image_extent: Extent,
    pub image_array_layers: u32,
    pub image_usage: u32,
    pub image_sharing_mode: i32,
    pub pre_transform: u32,
    pub composite_alpha: u32,
    pub present_mode: i32,
    pub clipped: bool,
    /// Zero: a new chain never takes over from an old one.
    pub old_swapchain: u64,
}

/// What a two-dimensional view of the whole of an image is created with:
/// one mip level, one layer, the components as they are.
#[derive(Clone, Copy, Debug, PartialEq, Eq, Structural)]
pub struct ImageViewInfo {
    pub image: u64,
    pub format: i32,
    pub aspect_mask: u32,
}

/// How many images to ask for: one more than the surface's minimum, but no
/// more than its maximum where it has one.
pub open spec fn chain_image_count(min_image_count: u32, max_image_count: u32) -> u32 {
    let wanted = if min_image_count < u32::MAX {
        (min_image_count + 1) as u32
    } else {
        u32::MAX
    };
    if max_image_count > 0 && wanted > max_image_count {
        max_image_count
    } else {
        wanted
    }
}

/// The number of images asked for lies within what the surface allows,
/// whenever the surface allows anything.
pub proof fn image_count_is_clamped(min_image_count: u32, max_image_count: u32)
    requires
        max_image_count == 0 || min_image_count <= max_image_count,
    ensures
        min_image_count <= chain_image_count(min_image_count, max_image_count),
        max_image_count > 0 ==> chain_image_count(min_image_count, max_image_count)
            <= max_image_count,
{
}

/// How many images to ask for, given the fewest and the most that the
/// surface allows; a most of zero means that there is no limit.
pub fn image_count(min_image_count: u32, max_image_count: u32) -> (count: u32)
    ensures
        count == chain_image_count(min_image_count, max_image_count),
{
    let wanted = if min_image_count < u32::MAX {
        min_image_count + 1
    } else {
        u32::MAX
    };
    if max_image_count > 0 && wanted > max_image_count {
        max_image_count
    } else {
        wanted
    }
}

/// The presentation chain.
#[derive(Debug)]
pub struct Swapchain {
    pub swapchain: u64,
    pub images: Vec<u64>,
    pub image_views: Vec<u64>,
    /// The extent of the surface when the chain was built.
    pub extent: Extent,
    /// Set once the chain has been torn down.
    pub released: bool,
}

impl Swapchain {
    /// The chain has one view for each image.
    pub open spec fn well_formed(&self) -> bool {
        self.images@.len() == self.image_views@.len()
    }

    /// What a teardown of this chain consists of: every view, then the
    /// chain, with which its images go.
    pub open spec fn teardown_steps<A>(&self) -> Seq<Release<A>> {
        destroy_each::<A>(ObjectKind::ImageView, self.image_views@) + seq![
            Release::<A>::Destroy(ObjectKind::Swapchain, self.swapchain),
        ]
    }

    /// What is still to be torn down: every step of a teardown, or
    /// nothing once it has been done.
    pub open spec fn pending_steps<A>(&self) -> Seq<Release<A>> {
        if self.released {
            Seq::empty()
        } else {
            self.teardown_steps::<A>()
        }
    }

    /// Describes the chain to create for the surface as it is now.
    pub fn create_info(physical: &Physical) -> (info: SwapchainInfo)
        ensures
            info.surface == physical.surface,
            info.min_image_count == chain_image_count(
                physical.surface_caps.min_image_count,
                physical.surface_caps.max_image_count,
            ),
            info.image_format == physical.format.format,
            info.image_color_space == physical.format.color_space,
            info.image_extent == physical.surface_caps.current_extent,
            info.image_array_layers == 1,
            info.image_usage == IMAGE_USAGE_COLOR_ATTACHMENT,
            info.image_sharing_mode == SHARING_MODE_EXCLUSIVE,
            info.pre_transform == physical.surface_caps.current_transform,
            info.composite_alpha == COMPOSITE_ALPHA_OPAQUE,
            info.present_mode == PRESENT_MODE_FIFO_RELAXED,
            info.clipped,
            info.old_swapchain == 0,
    {
        SwapchainInfo {
            surface: physical.surface,
            min_image_count: image_count(
                physical.surface_caps.min_image_count,
                physical.surface_caps.max_image_count,
            ),
            image_format: physical.format.format,
            image_color_space: physical.format.color_space,
            image_extent: physical.surface_caps.current_extent,
            image_array_layers: 1,
            image_usage: IMAGE_USAGE_COLOR_ATTACHMENT,
            image_sharing_mode: SHARING_MODE_EXCLUSIVE,
            pre_transform: physical.surface_caps.current_transform,
            composite_alpha: COMPOSITE_ALPHA_OPAQUE,
            present_mode: PRESENT_MODE_FIFO_RELAXED,
            clipped: true,
            old_swapchain: 0,
        }
    }

    /// Describes the views to create: a colour view of each image, in the
    /// order of the images.
    pub fn view_infos(physical: &Physical, images: &Vec<u64>) -> (infos: Vec<ImageViewInfo>)
        ensures
            infos@.len() == images@.len(),
            forall|i: int|
                0 <= i < images@.len() ==> #[trigger] infos@[i] == (ImageViewInfo {
                    image: images@[i],
                    format: physical.format.format,
                    aspect_mask: IMAGE_ASPECT_COLOR,
                }),
    {
        let mut infos: Vec<ImageViewInfo> = Vec::new();
        let mut i: usize = 0;
        while i < images.len()
            invariant
                i <= images@.len(),
                infos@.len() == i,
                forall|j: int|
                    0 <= j < i ==> #[trigger] infos@[j] == (ImageViewInfo {
                        image: images@[j],
                        format: physical.format.format,
                        aspect_mask: IMAGE_ASPECT_COLOR,
                    }),
            decreases images@.len() - i,
        {
            infos.push(
                ImageViewInfo {
                    image: images[i],
                    format: physical.format.format,
                    aspect_mask: IMAGE_ASPECT_COLOR,
                },
            );
            i = i + 1;
        }
        infos
    }

    /// Puts the chain together from what was created for it. Fails exactly
    /// when the views are not as many as the images.
    pub fn new(physical: &Physical, swapchain: u64, images: Vec<u64>, image_views: Vec<u64>) -> (chain:
        Result<Swapchain, EngineError>)
        ensures
            chain is Ok <==> images@.len() == image_views@.len(),
            chain is Err ==> chain->Err_0 == EngineError::Initialization,
            chain is Ok ==> {
                let c = chain->Ok_0;
                &&& c.well_formed()
                &&& !c.released
                &&& c.swapchain == swapchain
                &&& c.images == images
                &&& c.image_views == image_views
                &&& c.extent == physical.surface_caps.current_extent
            },
    {
        if images.len() != image_views.len() {
            return Err(EngineError::Initialization);
        }
        Ok(
            Swapchain {
                swapchain,
                images,
                image_views,
                extent: physical.surface_caps.current_extent,
                released: false,
            },
        )
    }

    /// The number of images in the chain.
    pub fn image_count(&self) -> (count: usize)
        ensures
            count == self.images@.len(),
    {
        self.images.len()
    }

    /// Tears the chain down. The first call returns the steps to carry
    /// out, in order; any later call returns none.
    pub fn cleanup<A>(&mut self) -> (steps: Vec<Release<A>>)
        ensures
            final(self).released,
            final(self).swapchain == old(self).swapchain,
            final(self).images == old(self).images,
            final(self).image_views == old(self).image_views,
            final(self).extent == old(self).extent,
            steps@ == old(self).pending_steps::<A>(),
    {
        let mut steps: Vec<Release<A>> = Vec::new();
        if self.released {
            return steps;
        }
        self.released = true;
        push_destroy_each(&mut steps, ObjectKind::ImageView, &self.image_views);
        steps.push(Release::Destroy(ObjectKind::Swapchain, self.swapchain));
        proof {
            assert(steps@ =~= old(self).teardown_steps::<A>());
        }
        steps
    }
}

} // verus!
