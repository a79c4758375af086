//! The engine: every component together, the commands of a frame, the
//! protocol by which frames are drawn, and the teardown of it all.

use vstd::prelude::*;
use crate::descriptors::{Descriptors, SHADER_STAGE_VERTEX};
use crate::device::{Extent, Physical, SurfaceCapabilities};
use crate::error::EngineError;
use crate::frame::{slot_of, Frame, Frames, SlotState, MIN_FRAME_SLOTS};
use crate::mesh::{Transform, PUSH_CONSTANT_BYTES};
use crate::pipeline::ONE;
use crate::protocol::{
    begin_keeps_well_formed,
    next_keeps_well_formed,
    resume_keeps_well_formed,
    Phase,
    Protocol,
    Reply,
    Resume,
    StepKind,
};
use crate::renderpass::RenderPass;
use crate::scene::{RenderObject, Scene};
use crate::swapchain::Swapchain;
use crate::teardown::{
    append_steps,
    concat,
    concat_take_next,
    frees,
    frees_of_sum,
    nothing_freed_laws,
    only_touching,
    orderly,
    orderly_sum,
    Release,
};

verus! {

/// `VK_PIPELINE_STAGE_COLOR_ATTACHMENT_OUTPUT_BIT`.
pub const PIPELINE_STAGE_COLOR_ATTACHMENT_OUTPUT: u32 = 0x400;

/// `VK_COMMAND_BUFFER_USAGE_ONE_TIME_SUBMIT_BIT`.
pub const COMMAND_BUFFER_USAGE_ONE_TIME_SUBMIT: u32 = 0x1;

/// `VK_COMMAND_BUFFER_RESET_RELEASE_RESOURCES_BIT`.
pub const COMMAND_BUFFER_RESET_RELEASE_RESOURCES: u32 = 0x1;

/// One command that is recorded into a frame's command buffer.
#[derive(Clone, Copy, Debug, PartialEq, Eq)]
pub enum GpuCommand {
    /// Reset the command buffer.
    Reset { flags: u32 },
    /// Begin recording.
    Begin { flags: u32 },
    /// Begin the render pass over the whole of a framebuffer. The clear
    /// colour is a function of the frame's number; the depth is cleared to
    /// `clear_depth`, the bits of a float.
    BeginRenderPass {
        render_pass: u64,
        framebuffer: u64,
        extent: Extent,
        framenumber: i64,
        clear_depth: u32,
    },
    /// Bind a graphics pipeline.
    BindPipeline { pipeline: u64 },
    /// Push the matrix that takes this instance to clip space: projection
    /// times view times the instance's own transform.
    PushConstants { layout: u64, stage_flags: u32, offset: u32, size: u32, transform: Transform },
    /// Bind a vertex buffer to binding 0, from this byte of the buffer on.
    BindVertexBuffer { buffer: u64, start: u64 },
    /// Draw without indices.
    Draw { vertex_count: u32, instance_count: u32, first_vertex: u32, first_instance: u32 },
    /// End the render pass.
    EndRenderPass,
    /// End recording.
    End,
}

/// Whether the pipeline has to be bound before instance `i` is drawn: it
/// is the first instance, or its material is not that of the instance
/// before it.
pub open spec fn rebinds(objects: Seq<RenderObject>, i: int) -> bool {
    i == 0 || objects[i].material_name@ != objects[i - 1].material_name@
}

/// The commands that draw instance `i` of a scene: the pipeline of its
/// material where that changes, its transform, its vertex buffer, and one
/// draw of all its vertices.
pub open spec fn object_commands<A>(scene: Scene<A>, i: int) -> Seq<GpuCommand> {
    let object = scene.objects@[i];
    let material = scene.materials@[object.material_name@];
    let mesh = scene.meshes@[object.mesh_name@];
    let bind = if rebinds(scene.objects@, i) {
        seq![GpuCommand::BindPipeline { pipeline: material.pipeline.pipelines@[0] }]
    } else {
        Seq::<GpuCommand>::empty()
    };
    bind + seq![
        GpuCommand::PushConstants {
            layout: material.pipeline.pipeline_layout,
            stage_flags: SHADER_STAGE_VERTEX,
            offset: 0,
            size: PUSH_CONSTANT_BYTES,
            transform: object.transform,
        },
        GpuCommand::BindVertexBuffer { buffer: mesh.vertex_buffer.buffer, start: 0 },
        GpuCommand::Draw {
            vertex_count: mesh.vertices@.len() as u32,
            instance_count: 1,
            first_vertex: 0,
            first_instance: 0,
        },
    ]
}

/// The commands of each instance, in the order of the instances.
pub open spec fn scene_commands<A>(scene: Scene<A>) -> Seq<Seq<GpuCommand>> {
    Seq::new(scene.objects@.len(), |i: int| object_commands(scene, i))
}

/// The commands that draw a scene.
pub open spec fn draw_commands<A>(scene: Scene<A>) -> Seq<GpuCommand> {
    concat(scene_commands(scene))
}

/// How many commands bind a pipeline.
pub open spec fn pipeline_binds(commands: Seq<GpuCommand>) -> nat
    decreases commands.len(),
{
    if commands.len() == 0 {
        0
    } else {
        pipeline_binds(commands.drop_last()) + if commands.last() is BindPipeline {
            1nat
        } else {
            0nat
        }
    }
}

/// How many of the first `count` instances start a run of instances of
/// one material.
pub open spec fn material_runs(objects: Seq<RenderObject>, count: nat) -> nat
    decreases count,
{
    if count == 0 {
        0
    } else {
        material_runs(objects, (count - 1) as nat) + if rebinds(objects, count - 1) {
            1nat
        } else {
            0nat
        }
    }
}

/// Commands in a row bind as many pipelines as both parts together.
pub proof fn pipeline_binds_of_sum(a: Seq<GpuCommand>, b: Seq<GpuCommand>)
    ensures
        pipeline_binds(a + b) == pipeline_binds(a) + pipeline_binds(b),
    decreases b.len(),
{
    if b.len() == 0 {
        assert(a + b =~= a);
    } else {
        assert((a + b).drop_last() =~= a + b.drop_last());
        assert((a + b).last() == b.last());
        pipeline_binds_of_sum(a, b.drop_last());
    }
}

/// Material changes are coalesced: drawing a scene binds a pipeline once
/// for every run of consecutive instances of one material, whatever their
/// meshes are.
pub proof fn binds_once_per_material_run<A>(scene: Scene<A>)
    ensures
        pipeline_binds(draw_commands(scene)) == material_runs(
            scene.objects@,
            scene.objects@.len(),
        ),
{
    binds_of_prefix(scene, scene.objects@.len());
    assert(scene_commands(scene).take(scene.objects@.len() as int) =~= scene_commands(scene));
}

proof fn binds_of_prefix<A>(scene: Scene<A>, count: nat)
    requires
        count <= scene.objects@.len(),
    ensures
        pipeline_binds(concat(scene_commands(scene).take(count as int))) == material_runs(
            scene.objects@,
            count,
        ),
    decreases count,
{
    let parts = scene_commands(scene);
    if count == 0 {
        assert(concat(parts.take(0)) =~= Seq::<GpuCommand>::empty());
    } else {
        binds_of_prefix(scene, (count - 1) as nat);
        concat_take_next(parts, count - 1);
        pipeline_binds_of_sum(concat(parts.take(count - 1)), parts[count - 1]);
        let part = parts[count - 1];
        assert(part == object_commands(scene, count - 1));
        object_binds(scene, count - 1);
    }
}

proof fn object_binds<A>(scene: Scene<A>, i: int)
    ensures
        pipeline_binds(object_commands(scene, i)) == (if rebinds(scene.objects@, i) {
            1nat
        } else {
            0nat
        }),
{
    let part = object_commands(scene, i);
    reveal_with_fuel(pipeline_binds, 5);
    let before_draw = part.drop_last();
    let before_buffer = before_draw.drop_last();
    let before_push = before_buffer.drop_last();
    assert(part.last() is Draw);
    assert(before_draw.last() is BindVertexBuffer);
    assert(before_buffer.last() is PushConstants);
    if rebinds(scene.objects@, i) {
        assert(before_push.last() is BindPipeline);
        assert(before_push.drop_last().len() == 0);
    } else {
        assert(before_push.len() == 0);
    }
}

/// What the engine asks the program to do next.
#[derive(Debug, PartialEq, Eq)]
pub enum Step {
    /// Wait, without a time limit, until the fence is signaled.
    WaitFence { fence: u64 },
    /// Reset the fence.
    ResetFence { fence: u64 },
    /// Acquire the next image of the chain, without a time limit, and have
    /// the semaphore signaled when it can be drawn to.
    AcquireImage { swapchain: u64, semaphore: u64 },
    /// Record these commands into the command buffer, in order.
    Record { command_buffer: u64, commands: Vec<GpuCommand> },
    /// Submit the command buffer to the queue: it waits for one semaphore
    /// at the given stage, and signals the other semaphore and the fence
    /// when it is done.
    Submit {
        queue: u64,
        command_buffer: u64,
        wait_semaphore: u64,
        wait_stage: u32,
        signal_semaphore: u64,
        fence: u64,
    },
    /// Present the image once the semaphore is signaled.
    Present { queue: u64, swapchain: u64, image_index: u32, wait_semaphore: u64 },
    /// Rebuild the presentation chain and the render targets.
    Recreate,
    /// The frame is over.
    Finished,
    /// Stop drawing for good, and tear the engine down.
    Abort(EngineError),
}

/// The engine.
#[derive(Debug)]
pub struct VulkanApp<A> {
    pub scene: Scene<A>,
    pub descs: Descriptors,
    pub frames: Frames<A>,
    pub render_pass: RenderPass<A>,
    pub swapchain: Swapchain,
    pub physical: Physical,
    /// Where the engine stands.
    pub phase: Phase,
    /// The slot of the frame being drawn.
    pub slot: usize,
    /// The number of the frame being drawn.
    pub framenumber: i64,
    /// The index of the image that the frame draws to.
    pub image: u32,
}

/// The chain and the render targets are live, fit each other and fit the
/// surface as it is now.
pub open spec fn chain_fits<A>(
    physical: Physical,
    swapchain: Swapchain,
    render_pass: RenderPass<A>,
) -> bool {
    &&& !swapchain.released
    &&& !render_pass.released
    &&& swapchain.well_formed()
    &&& render_pass.fits(&swapchain)
    &&& swapchain.extent == physical.surface_caps.current_extent
}

/// The parts of an engine are live and fit each other: the chain and the
/// render targets, at least two slots that are all idle, and a scene of
/// which every instance can be drawn.
pub open spec fn parts_fit<A>(
    physical: Physical,
    swapchain: Swapchain,
    render_pass: RenderPass<A>,
    descs: Descriptors,
    frames: Frames<A>,
    scene: Scene<A>,
) -> bool {
    &&& !physical.released
    &&& !descs.released
    &&& !frames.released
    &&& !scene.released
    &&& chain_fits(physical, swapchain, render_pass)
    &&& frames.frames@.len() >= MIN_FRAME_SLOTS
    &&& forall|i: int|
        0 <= i < frames.frames@.len() ==> (#[trigger] frames.frames@[i]).state == SlotState::Idle
    &&& scene.drawable()
}

fn check_chain<A>(physical: &Physical, swapchain: &Swapchain, render_pass: &RenderPass<A>) -> (fits:
    bool)
    ensures
        fits == chain_fits(*physical, *swapchain, *render_pass),
{
    !swapchain.released && !render_pass.released && swapchain.images.len()
        == swapchain.image_views.len() && render_pass.framebuffers.len()
        == swapchain.image_views.len() && render_pass.extent == swapchain.extent
        && swapchain.extent == physical.surface_caps.current_extent
}

fn all_idle<A>(frames: &Frames<A>) -> (idle: bool)
    ensures
        idle == forall|i: int|
            0 <= i < frames.frames@.len() ==> (#[trigger] frames.frames@[i]).state
                == SlotState::Idle,
{
    let mut i: usize = 0;
    while i < frames.frames.len()
        invariant
            i <= frames.frames@.len(),
            forall|j: int| 0 <= j < i ==> (#[trigger] frames.frames@[j]).state == SlotState::Idle,
        decreases frames.frames@.len() - i,
    {
        if frames.frames[i].state != SlotState::Idle {
            return false;
        }
        i = i + 1;
    }
    true
}

impl Step {
    /// The kind of this step.
    pub open spec fn kind(self) -> StepKind {
        match self {
            Step::WaitFence { .. } => StepKind::WaitFence,
            Step::ResetFence { .. } => StepKind::ResetFence,
            Step::AcquireImage { .. } => StepKind::AcquireImage,
            Step::Record { .. } => StepKind::Record,
            Step::Submit { .. } => StepKind::Submit,
            Step::Present { .. } => StepKind::Present,
            Step::Recreate => StepKind::Recreate,
            Step::Finished => StepKind::Finished,
            Step::Abort(error) => StepKind::Abort(error),
        }
    }
}

impl<A> VulkanApp<A> {
    /// The state of the frame protocol.
    pub open spec fn protocol(&self) -> Protocol {
        Protocol {
            phase: self.phase,
            slot: self.slot as int,
            image: self.image,
            slots: self.frames.states(),
            framebuffers: self.render_pass.framebuffers@.len(),
        }
    }

    /// The engine can go on: its scene is well-formed, the protocol is, and
    /// unless the engine has failed or is torn down every instance of the
    /// scene can be drawn.
    pub open spec fn well_formed(&self) -> bool {
        &&& self.scene.well_formed()
        &&& self.protocol().well_formed()
        &&& match self.phase {
            Phase::Failed(_) | Phase::TornDown => true,
            _ => self.scene.drawable(),
        }
    }

    /// The same GPU objects as `other`: everything but the phase, the frame
    /// being drawn, and where each slot stands.
    pub open spec fn same_objects(&self, other: &Self) -> bool {
        &&& self.scene == other.scene
        &&& self.descs == other.descs
        &&& self.render_pass == other.render_pass
        &&& self.swapchain == other.swapchain
        &&& self.physical == other.physical
        &&& self.frames.released == other.frames.released
        &&& self.frames.frames@.len() == other.frames.frames@.len()
        &&& forall|i: int|
            0 <= i < self.frames.frames@.len() ==> {
                let mine = #[trigger] self.frames.frames@[i];
                let theirs = other.frames.frames@[i];
                &&& mine.present_semaphore == theirs.present_semaphore
                &&& mine.render_semaphore == theirs.render_semaphore
                &&& mine.render_fence == theirs.render_fence
                &&& mine.command_pool == theirs.command_pool
                &&& mine.command_buffer == theirs.command_buffer
                &&& mine.camera_buffer == theirs.camera_buffer
            }
    }

    /// The commands of the frame being drawn: the command buffer is reset
    /// and begun for one submission, the render pass begins on the
    /// framebuffer of the acquired image, the scene is drawn, and pass and
    /// recording end.
    pub open spec fn frame_commands(&self) -> Seq<GpuCommand> {
        seq![
            GpuCommand::Reset { flags: COMMAND_BUFFER_RESET_RELEASE_RESOURCES },
            GpuCommand::Begin { flags: COMMAND_BUFFER_USAGE_ONE_TIME_SUBMIT },
            GpuCommand::BeginRenderPass {
                render_pass: self.render_pass.render_pass,
                framebuffer: self.render_pass.framebuffers@[self.image as int],
                extent: self.render_pass.extent,
                framenumber: self.framenumber,
                clear_depth: ONE,
            },
        ] + draw_commands(self.scene) + seq![GpuCommand::EndRenderPass, GpuCommand::End]
    }

    /// `step` is the step of this kind for the frame being drawn, with the
    /// handles of the frame's slot.
    pub open spec fn issues(&self, step: Step, kind: StepKind) -> bool {
        let frame = self.frames.frames@[self.slot as int];
        match kind {
            StepKind::WaitFence => step == Step::WaitFence { fence: frame.render_fence },
            StepKind::ResetFence => step == Step::ResetFence { fence: frame.render_fence },
            StepKind::AcquireImage => step == (Step::AcquireImage {
                swapchain: self.swapchain.swapchain,
                semaphore: frame.present_semaphore,
            }),
            StepKind::Record => match step {
                Step::Record { command_buffer, commands } => command_buffer == frame.command_buffer
                    && commands@ == self.frame_commands(),
                _ => false,
            },
            StepKind::Submit => step == (Step::Submit {
                queue: self.physical.graphics_queue,
                command_buffer: frame.command_buffer,
                wait_semaphore: frame.present_semaphore,
                wait_stage: PIPELINE_STAGE_COLOR_ATTACHMENT_OUTPUT,
                signal_semaphore: frame.render_semaphore,
                fence: frame.render_fence,
            }),
            StepKind::Present => step == (Step::Present {
                queue: self.physical.graphics_queue,
                swapchain: self.swapchain.swapchain,
                image_index: self.image,
                wait_semaphore: frame.render_semaphore,
            }),
            StepKind::Recreate => step == Step::Recreate,
            StepKind::Finished => step == Step::Finished,
            StepKind::Abort(error) => step == Step::Abort(error),
        }
    }

    /// The step that the engine issues is of the kind that the protocol
    /// asks for.
    pub proof fn issued_step_is_of_its_kind(&self, step: Step, kind: StepKind)
        requires
            self.issues(step, kind),
        ensures
            step.kind() == kind,
    {
    }

    /// What a teardown of the engine consists of: the device is waited for,
    /// and then the scene, the descriptors, the frame slots, the render
    /// targets, the chain and the device context are torn down in this
    /// order, each as far as it has not been already.
    pub open spec fn teardown_steps(&self) -> Seq<Release<A>> {
        seq![Release::<A>::WaitIdle] + self.scene.pending_steps() + self.descs.pending_steps::<A>()
            + self.frames.pending_steps() + self.render_pass.pending_steps()
            + self.swapchain.pending_steps::<A>() + self.physical.pending_steps::<A>()
    }

    /// Puts the engine together from its parts. Where the parts are live
    /// and fit each other the engine is ready to draw; where they do not it
    /// holds them all the same, so that they can be torn down, and has
    /// failed.
    pub fn new(
        physical: Physical,
        swapchain: Swapchain,
        render_pass: RenderPass<A>,
        descs: Descriptors,
        frames: Frames<A>,
        scene: Scene<A>,
    ) -> (app: Self)
        requires
            scene.well_formed(),
        ensures
            app.well_formed(),
            app.physical == physical,
            app.swapchain == swapchain,
            app.render_pass == render_pass,
            app.descs == descs,
            app.frames == frames,
            app.scene == scene,
            app.phase == (if parts_fit(physical, swapchain, render_pass, descs, frames, scene) {
                Phase::Ready
            } else {
                Phase::Failed(EngineError::Initialization)
            }),
            app.slot == 0,
            app.framenumber == 0,
            app.image == 0,
    {
        let fit = !physical.released && !descs.released && !frames.released && !scene.released
            && check_chain(&physical, &swapchain, &render_pass) && frames.frames.len()
            >= MIN_FRAME_SLOTS && all_idle(&frames) && scene.is_drawable();
        let phase = if fit {
            Phase::Ready
        } else {
            Phase::Failed(EngineError::Initialization)
        };
        let app = VulkanApp {
            scene,
            descs,
            frames,
            render_pass,
            swapchain,
            physical,
            phase,
            slot: 0,
            framenumber: 0,
            image: 0,
        };
        proof {
            if fit {
                assert forall|s: int| 0 <= s < app.protocol().slots.len() implies (
                #[trigger] app.protocol().slots[s]) != SlotState::Recording by {
                    assert(app.frames.frames@[s].state == SlotState::Idle);
                }
            }
        }
        app
    }

    fn fail(&mut self, error: EngineError) -> (step: Step)
        ensures
            final(self).phase == Phase::Failed(error),
            final(self).scene == old(self).scene,
            final(self).descs == old(self).descs,
            final(self).frames == old(self).frames,
            final(self).render_pass == old(self).render_pass,
            final(self).swapchain == old(self).swapchain,
            final(self).physical == old(self).physical,
            final(self).slot == old(self).slot,
            final(self).framenumber == old(self).framenumber,
            final(self).image == old(self).image,
            step == Step::Abort(error),
    {
        self.phase = Phase::Failed(error);
        Step::Abort(error)
    }

    fn set_slot_state(&mut self, state: SlotState)
        requires
            old(self).slot < old(self).frames.frames@.len(),
        ensures
            final(self).same_objects(old(self)),
            final(self).phase == old(self).phase,
            final(self).slot == old(self).slot,
            final(self).framenumber == old(self).framenumber,
            final(self).image == old(self).image,
            final(self).frames.states() == old(self).frames.states().update(
                old(self).slot as int,
                state,
            ),
    {
        let slot = self.slot;
        self.frames.frames[slot].state = state;
        proof {
            assert(self.frames.states() =~= old(self).frames.states().update(
                old(self).slot as int,
                state,
            ));
        }
    }

    /// Whether no slot but perhaps the frame's own is being recorded.
    fn others_rest(&self) -> (rest: bool)
        ensures
            rest == self.protocol().others_at_rest(),
    {
        let mut s: usize = 0;
        while s < self.frames.frames.len()
            invariant
                s <= self.frames.frames@.len(),
                forall|k: int|
                    0 <= k < s && k != self.slot ==> (#[trigger] self.frames.frames@[k]).state
                        != SlotState::Recording,
            decreases self.frames.frames@.len() - s,
        {
            if s != self.slot && self.frames.frames[s].state == SlotState::Recording {
                proof {
                    assert(self.protocol().slots.len() == self.frames.frames@.len());
                    assert(self.protocol().slots[s as int] == SlotState::Recording);
                    assert(!self.protocol().others_at_rest());
                }
                return false;
            }
            s = s + 1;
        }
        proof {
            assert forall|k: int|
                0 <= k < self.protocol().slots.len() && k != self.protocol().slot implies (
            #[trigger] self.protocol().slots[k]) != SlotState::Recording by {
                assert(self.frames.frames@[k].state != SlotState::Recording);
            }
        }
        true
    }

    fn protocol_is_well_formed(&self) -> (well_formed: bool)
        ensures
            well_formed == self.protocol().well_formed(),
    {
        match self.phase {
            Phase::Failed(_) | Phase::TornDown => true,
            Phase::Ready | Phase::Stale { resume: Resume::Rest } | Phase::Rebuilding {
                resume: Resume::Rest,
            } => {
                if self.frames.frames.len() < MIN_FRAME_SLOTS {
                    return false;
                }
                let mut s: usize = 0;
                while s < self.frames.frames.len()
                    invariant
                        s <= self.frames.frames@.len(),
                        self.phase == Phase::Ready || self.phase == (Phase::Stale {
                            resume: Resume::Rest,
                        }) || self.phase == (Phase::Rebuilding { resume: Resume::Rest }),
                        forall|k: int|
                            0 <= k < s ==> (#[trigger] self.frames.frames@[k]).state
                                != SlotState::Recording,
                    decreases self.frames.frames@.len() - s,
                {
                    if self.frames.frames[s].state == SlotState::Recording {
                        proof {
                            assert(self.protocol().slots.len() == self.frames.frames@.len());
                            assert(self.protocol().slots[s as int] == SlotState::Recording);
                        }
                        return false;
                    }
                    s = s + 1;
                }
                proof {
                    assert forall|k: int| 0 <= k < self.protocol().slots.len() implies (
                    #[trigger] self.protocol().slots[k]) != SlotState::Recording by {
                        assert(self.frames.frames@[k].state != SlotState::Recording);
                    }
                }
                true
            },
            _ => {
                if self.frames.frames.len() < MIN_FRAME_SLOTS || self.slot
                    >= self.frames.frames.len() {
                    return false;
                }
                if !self.others_rest() {
                    return false;
                }
                let state = self.frames.frames[self.slot].state;
                proof {
                    assert(self.protocol().slots[self.slot as int] == state);
                }
                match self.phase {
                    Phase::WaitingFence => state != SlotState::Recording,
                    Phase::ResettingFence | Phase::Acquiring => state == SlotState::Idle,
                    Phase::Recording | Phase::Submitting => state == SlotState::Recording,
                    Phase::Presenting => state == SlotState::Submitted,
                    Phase::Stale { resume } | Phase::Rebuilding { resume } => if resume
                        == Resume::Redraw {
                        state == SlotState::Submitted
                    } else {
                        state == SlotState::Idle
                    },
                    _ => true,
                }
            },
        }
    }

    /// Whether the engine can go on.
    pub fn is_well_formed(&self) -> (well_formed: bool)
        ensures
            well_formed == self.well_formed(),
    {
        if !self.scene.is_well_formed() || !self.protocol_is_well_formed() {
            return false;
        }
        match self.phase {
            Phase::Failed(_) | Phase::TornDown => true,
            _ => self.scene.is_drawable(),
        }
    }

    /// Records the drawing of every instance of the scene, in the order of
    /// the instances.
    pub fn draw_objects(&self) -> (commands: Vec<GpuCommand>)
        requires
            self.scene.drawable(),
        ensures
            commands@ == draw_commands(self.scene),
    {
        let mut commands: Vec<GpuCommand> = Vec::new();
        let ghost parts = scene_commands(self.scene);
        let mut i: usize = 0;
        proof {
            assert(concat(parts.take(0)) =~= Seq::<GpuCommand>::empty());
        }
        while i < self.scene.objects.len()
            invariant
                i <= self.scene.objects@.len(),
                self.scene.drawable(),
                parts == scene_commands(self.scene),
                commands@ == concat(parts.take(i as int)),
            decreases self.scene.objects@.len() - i,
        {
            let object = &self.scene.objects[i];
            assert(self.scene.can_draw(*object));
            let material = self.scene.materials.get(&object.material_name).unwrap();
            let mesh = self.scene.meshes.get(&object.mesh_name).unwrap();
            let ghost before = commands@;
            let changed = i == 0 || !(object.material_name == self.scene.objects[i
                - 1].material_name);
            if changed {
                commands.push(GpuCommand::BindPipeline { pipeline: material.pipeline.pipelines[0] });
            }
            commands.push(
                GpuCommand::PushConstants {
                    layout: material.pipeline.pipeline_layout,
                    stage_flags: SHADER_STAGE_VERTEX,
                    offset: 0,
                    size: PUSH_CONSTANT_BYTES,
                    transform: object.transform,
                },
            );
            commands.push(
                GpuCommand::BindVertexBuffer { buffer: mesh.vertex_buffer.buffer, start: 0 },
            );
            commands.push(
                GpuCommand::Draw {
                    vertex_count: mesh.vertices.len() as u32,
                    instance_count: 1,
                    first_vertex: 0,
                    first_instance: 0,
                },
            );
            proof {
                concat_take_next(parts, i as int);
                assert(parts[i as int] == object_commands(self.scene, i as int));
                assert(commands@ =~= before + object_commands(self.scene, i as int));
            }
            i = i + 1;
        }
        proof {
            assert(parts.take(i as int) =~= parts);
        }
        commands
    }

    /// Records the commands of the frame being drawn.
    pub fn record(&self) -> (commands: Vec<GpuCommand>)
        requires
            self.scene.drawable(),
            self.image < self.render_pass.framebuffers@.len(),
        ensures
            commands@ == self.frame_commands(),
    {
        let mut commands: Vec<GpuCommand> = Vec::new();
        commands.push(GpuCommand::Reset { flags: COMMAND_BUFFER_RESET_RELEASE_RESOURCES });
        commands.push(GpuCommand::Begin { flags: COMMAND_BUFFER_USAGE_ONE_TIME_SUBMIT });
        commands.push(
            GpuCommand::BeginRenderPass {
                render_pass: self.render_pass.render_pass,
                framebuffer: self.render_pass.framebuffers[self.image as usize],
                extent: self.render_pass.extent,
                framenumber: self.framenumber,
                clear_depth: ONE,
            },
        );
        let mut draws = self.draw_objects();
        commands.append(&mut draws);
        commands.push(GpuCommand::EndRenderPass);
        commands.push(GpuCommand::End);
        proof {
            assert(commands@ =~= self.frame_commands());
        }
        commands
    }

    /// Starts drawing a frame: between two frames the engine takes the
    /// frame's slot and asks to wait for the slot's fence.
    pub fn draw(&mut self, framenumber: i64) -> (step: Step)
        requires
            old(self).well_formed(),
        ensures
            final(self).well_formed(),
            final(self).same_objects(old(self)),
            final(self).protocol() == old(self).protocol().begin(framenumber).0,
            final(self).issues(step, old(self).protocol().begin(framenumber).1),
            final(self).framenumber == (if old(self).phase == Phase::Ready {
                framenumber
            } else {
                old(self).framenumber
            }),
    {
        proof {
            begin_keeps_well_formed(self.protocol(), framenumber);
        }
        match self.phase {
            Phase::Ready => {
                let slot = self.frames.slot(framenumber);
                self.slot = slot;
                self.framenumber = framenumber;
                self.phase = Phase::WaitingFence;
                Step::WaitFence { fence: self.frames.frames[slot].render_fence }
            },
            Phase::Failed(error) => Step::Abort(error),
            Phase::TornDown => Step::Abort(EngineError::DeviceLost),
            _ => self.fail(EngineError::DeviceLost),
        }
    }

    /// Takes the program's report of how the last step went, and says what
    /// to do next.
    pub fn advance(&mut self, reply: Reply) -> (step: Step)
        requires
            old(self).well_formed(),
        ensures
            final(self).well_formed(),
            final(self).same_objects(old(self)),
            final(self).framenumber == old(self).framenumber,
            final(self).protocol() == old(self).protocol().next(reply).0,
            final(self).issues(step, old(self).protocol().next(reply).1),
    {
        proof {
            next_keeps_well_formed(self.protocol(), reply);
        }
        match self.phase {
            Phase::WaitingFence => match reply {
                Reply::Done => {
                    self.set_slot_state(SlotState::Idle);
                    self.phase = Phase::ResettingFence;
                    Step::ResetFence { fence: self.frames.frames[self.slot].render_fence }
                },
                _ => self.fail(EngineError::DeviceLost),
            },
            Phase::ResettingFence => match reply {
                Reply::Done => {
                    self.phase = Phase::Acquiring;
                    Step::AcquireImage {
                        swapchain: self.swapchain.swapchain,
                        semaphore: self.frames.frames[self.slot].present_semaphore,
                    }
                },
                _ => self.fail(EngineError::DeviceLost),
            },
            Phase::Acquiring => match reply {
                Reply::Image(image) => {
                    if (image as usize) < self.render_pass.framebuffers.len() {
                        self.set_slot_state(SlotState::Recording);
                        self.image = image;
                        self.phase = Phase::Recording;
                        let commands = self.record();
                        Step::Record {
                            command_buffer: self.frames.frames[self.slot].command_buffer,
                            commands,
                        }
                    } else {
                        self.fail(EngineError::DeviceLost)
                    }
                },
                Reply::OutOfDate => {
                    self.phase = Phase::Stale { resume: Resume::Acquire };
                    Step::Recreate
                },
                _ => self.fail(EngineError::DeviceLost),
            },
            Phase::Recording => match reply {
                Reply::Done => {
                    self.phase = Phase::Submitting;
                    let frame = &self.frames.frames[self.slot];
                    Step::Submit {
                        queue: self.physical.graphics_queue,
                        command_buffer: frame.command_buffer,
                        wait_semaphore: frame.present_semaphore,
                        wait_stage: PIPELINE_STAGE_COLOR_ATTACHMENT_OUTPUT,
                        signal_semaphore: frame.render_semaphore,
                        fence: frame.render_fence,
                    }
                },
                _ => self.fail(EngineError::DeviceLost),
            },
            Phase::Submitting => match reply {
                Reply::Done => {
                    self.set_slot_state(SlotState::Submitted);
                    self.phase = Phase::Presenting;
                    Step::Present {
                        queue: self.physical.graphics_queue,
                        swapchain: self.swapchain.swapchain,
                        image_index: self.image,
                        wait_semaphore: self.frames.frames[self.slot].render_semaphore,
                    }
                },
                _ => self.fail(EngineError::DeviceLost),
            },
            Phase::Presenting => match reply {
                Reply::Done => {
                    self.phase = Phase::Ready;
                    Step::Finished
                },
                Reply::OutOfDate => {
                    self.phase = Phase::Stale { resume: Resume::Redraw };
                    Step::Recreate
                },
                _ => self.fail(EngineError::DeviceLost),
            },
            Phase::Failed(error) => Step::Abort(error),
            Phase::TornDown => Step::Abort(EngineError::DeviceLost),
            _ => self.fail(EngineError::DeviceLost),
        }
    }

    /// Takes note that the window has been resized: between two frames
    /// the engine asks for the chain and the render targets to be rebuilt.
    pub fn resize(&mut self) -> (step: Step)
        requires
            old(self).well_formed(),
        ensures
            final(self).well_formed(),
            final(self).same_objects(old(self)),
            final(self).framenumber == old(self).framenumber,
            final(self).protocol() == old(self).protocol().resize().0,
            final(self).issues(step, old(self).protocol().resize().1),
    {
        match self.phase {
            Phase::Ready => {
                self.phase = Phase::Stale { resume: Resume::Rest };
                Step::Recreate
            },
            Phase::Failed(error) => Step::Abort(error),
            Phase::TornDown => Step::Abort(EngineError::DeviceLost),
            _ => self.fail(EngineError::DeviceLost),
        }
    }

    /// Starts rebuilding the presentation chain and the render targets
    /// for a surface that has changed. Where the surface is out of date the
    /// engine takes note of what the surface allows now and returns the
    /// steps that clear the way: the device is waited for, then the render
    /// targets go, then the chain. Anywhere else nothing is to be done, and
    /// unless the engine has failed or is torn down already, the call is a
    /// fault of the program.
    pub fn begin_recreate(&mut self, surface_caps: SurfaceCapabilities) -> (steps: Vec<Release<A>>)
        requires
            old(self).well_formed(),
        ensures
            final(self).well_formed(),
            final(self).scene == old(self).scene,
            final(self).descs == old(self).descs,
            final(self).frames == old(self).frames,
            final(self).slot == old(self).slot,
            final(self).framenumber == old(self).framenumber,
            final(self).image == old(self).image,
            final(self).protocol() == old(self).protocol().rebuild(),
            match old(self).phase {
                Phase::Stale { resume } => {
                    &&& final(self).phase == Phase::Rebuilding { resume }
                    &&& steps@ == seq![Release::<A>::WaitIdle] + old(self).render_pass.pending_steps() + old(self).swapchain.pending_steps::<A>()
                    &&& final(self).physical == (Physical { surface_caps, ..old(self).physical })
                    &&& final(self).render_pass.released
                    &&& final(self).swapchain.released
                    &&& final(self).render_pass.framebuffers == old(self).render_pass.framebuffers
                },
                Phase::Failed(_) | Phase::TornDown => {
                    &&& steps@.len() == 0
                    &&& final(self).phase == old(self).phase
                    &&& final(self).physical == old(self).physical
                    &&& final(self).render_pass == old(self).render_pass
                    &&& final(self).swapchain == old(self).swapchain
                },
                _ => {
                    &&& steps@.len() == 0
                    &&& final(self).phase == Phase::Failed(EngineError::DeviceLost)
                    &&& final(self).physical == old(self).physical
                    &&& final(self).render_pass == old(self).render_pass
                    &&& final(self).swapchain == old(self).swapchain
                },
            },
    {
        let mut steps: Vec<Release<A>> = Vec::new();
        match self.phase {
            Phase::Stale { resume } => {
                steps.push(Release::WaitIdle);
                let targets = self.render_pass.cleanup();
                append_steps(&mut steps, targets);
                let chain = self.swapchain.cleanup();
                append_steps(&mut steps, chain);
                self.physical.surface_caps = surface_caps;
                self.phase = Phase::Rebuilding { resume };
                proof {
                    assert(steps@ =~= seq![Release::<A>::WaitIdle] + old(self).render_pass.pending_steps() + old(self).swapchain.pending_steps::<A>());
                    assert(self.protocol().slots == old(self).protocol().slots);
                }
            },
            Phase::Failed(_) | Phase::TornDown => {},
            _ => {
                self.fail(EngineError::DeviceLost);
            },
        }
        steps
    }

    /// Takes the rebuilt chain and render targets in place of the old
    /// ones. Where they are live, fit each other and fit the surface, the
    /// engine takes up its work where the stale surface had stopped it:
    /// there is then a framebuffer for every image of the new chain, of
    /// the extent that the surface has now. Where they do not fit, the engine holds them all the same, so
    /// that they can be torn down, and has failed.
    pub fn finish_recreate(&mut self, swapchain: Swapchain, render_pass: RenderPass<A>) -> (step:
        Step)
        requires
            old(self).well_formed(),
            old(self).phase is Rebuilding,
        ensures
            final(self).well_formed(),
            final(self).swapchain == swapchain,
            final(self).render_pass == render_pass,
            final(self).scene == old(self).scene,
            final(self).descs == old(self).descs,
            final(self).frames == old(self).frames,
            final(self).physical == old(self).physical,
            final(self).slot == old(self).slot,
            final(self).framenumber == old(self).framenumber,
            final(self).image == old(self).image,
            chain_fits(old(self).physical, swapchain, render_pass) ==> {
                &&& final(self).protocol() == old(self).protocol().resume(
                    render_pass.framebuffers@.len(),
                ).0
                &&& final(self).issues(
                    step,
                    old(self).protocol().resume(render_pass.framebuffers@.len()).1,
                )
                &&& final(self).render_pass.framebuffers@.len() == final(self).swapchain.images@.len()
                &&& final(self).render_pass.extent == final(self).physical.surface_caps.current_extent
            },
            !chain_fits(old(self).physical, swapchain, render_pass) ==> {
                &&& final(self).protocol() == old(self).protocol().misfit(
                    render_pass.framebuffers@.len(),
                ).0
                &&& step == Step::Abort(EngineError::Initialization)
            },
    {
        proof {
            resume_keeps_well_formed(self.protocol(), render_pass.framebuffers@.len());
        }
        let fits = check_chain(&self.physical, &swapchain, &render_pass);
        self.swapchain = swapchain;
        self.render_pass = render_pass;
        if !fits {
            return self.fail(EngineError::Initialization);
        }
        match self.phase {
            Phase::Rebuilding { resume } => match resume {
                Resume::Rest => {
                    self.phase = Phase::Ready;
                    Step::Finished
                },
                Resume::Acquire => {
                    self.phase = Phase::Acquiring;
                    Step::AcquireImage {
                        swapchain: self.swapchain.swapchain,
                        semaphore: self.frames.frames[self.slot].present_semaphore,
                    }
                },
                Resume::Redraw => {
                    self.phase = Phase::WaitingFence;
                    Step::WaitFence { fence: self.frames.frames[self.slot].render_fence }
                },
            },
            _ => self.fail(EngineError::DeviceLost),
        }
    }

    /// How many memory blocks are still to be freed.
    pub open spec fn live_blocks(&self) -> nat {
        self.scene.live_blocks() + self.frames.live_blocks() + self.render_pass.live_blocks()
    }

    /// Tears the engine down, whatever it was doing. The first call
    /// returns the steps to carry out, in order, and leaves nothing to
    /// free; any later call returns none.
    pub fn teardown(&mut self) -> (steps: Vec<Release<A>>)
        ensures
            final(self).protocol() == old(self).protocol().stop(),
            old(self).phase != Phase::TornDown ==> steps@ == old(self).teardown_steps(),
            old(self).phase == Phase::TornDown ==> steps@.len() == 0,
            old(self).scene.well_formed() ==> final(self).well_formed(),
            old(self).phase != Phase::TornDown ==> {
                &&& final(self).scene.released
                &&& final(self).descs.released
                &&& final(self).frames.released
                &&& final(self).render_pass.released
                &&& final(self).swapchain.released
                &&& final(self).physical.released
                &&& final(self).live_blocks() == 0
            },
    {
        let mut steps: Vec<Release<A>> = Vec::new();
        if self.phase == Phase::TornDown {
            return steps;
        }
        self.phase = Phase::TornDown;
        steps.push(Release::WaitIdle);
        let scene = self.scene.cleanup();
        append_steps(&mut steps, scene);
        let descs = self.descs.cleanup();
        append_steps(&mut steps, descs);
        let frames = self.frames.cleanup();
        append_steps(&mut steps, frames);
        let targets = self.render_pass.cleanup();
        append_steps(&mut steps, targets);
        let chain = self.swapchain.cleanup();
        append_steps(&mut steps, chain);
        let context = self.physical.cleanup();
        append_steps(&mut steps, context);
        proof {
            assert(steps@ =~= old(self).teardown_steps());
            assert(self.frames.states() =~= old(self).frames.states());
        }
        steps
    }

    /// Every memory block is freed exactly once, and none before the
    /// object that is bound to it is destroyed: a teardown frees as many
    /// blocks as the parts that are still to be torn down hold, each
    /// directly after the destruction of a buffer or an image; and once
    /// every part is torn down, a teardown frees nothing.
    pub proof fn teardown_frees_each_block_once(&self)
        ensures
            frees(self.teardown_steps()) == self.live_blocks(),
            orderly(self.teardown_steps()),
            self.scene.released && self.frames.released && self.render_pass.released ==> frees(
                self.teardown_steps(),
            ) == 0,
    {
        let wait = seq![Release::<A>::WaitIdle];
        let a = self.scene.pending_steps();
        let b = self.descs.pending_steps::<A>();
        let c = self.frames.pending_steps();
        let d = self.render_pass.pending_steps();
        let e = self.swapchain.pending_steps::<A>();
        let f = self.physical.pending_steps::<A>();
        nothing_freed_laws(wait);
        self.scene.teardown_laws();
        nothing_freed_laws(b);
        self.frames.teardown_laws();
        self.render_pass.teardown_laws();
        nothing_freed_laws(e);
        nothing_freed_laws(f);
        frees_of_sum(wait, a);
        orderly_sum(wait, a);
        frees_of_sum(wait + a, b);
        orderly_sum(wait + a, b);
        frees_of_sum(wait + a + b, c);
        orderly_sum(wait + a + b, c);
        frees_of_sum(wait + a + b + c, d);
        orderly_sum(wait + a + b + c, d);
        frees_of_sum(wait + a + b + c + d, e);
        orderly_sum(wait + a + b + c + d, e);
        frees_of_sum(wait + a + b + c + d + e, f);
        orderly_sum(wait + a + b + c + d + e, f);
    }

    /// A teardown blocks on the device before it destroys anything: its
    /// first step waits for the device to be idle, and every other step
    /// destroys an object or frees or cleans up memory.
    pub proof fn teardown_waits_first(&self)
        ensures
            self.teardown_steps().len() > 0,
            self.teardown_steps()[0] is WaitIdle,
            forall|k: int|
                0 <= k < self.teardown_steps().len() ==> ((
                #[trigger] self.teardown_steps()[k]).touches_device() <==> k > 0),
    {
        self.scene.teardown_touches();
        self.frames.teardown_touches();
        let steps = self.teardown_steps();
        let a = self.scene.pending_steps();
        let b = self.descs.pending_steps::<A>();
        let c = self.frames.pending_steps();
        let d = self.render_pass.pending_steps();
        let e = self.swapchain.pending_steps::<A>();
        let f = self.physical.pending_steps::<A>();
        assert(only_touching(b));
        assert(only_touching(d));
        assert(only_touching(e));
        assert(only_touching(f));
        assert forall|k: int| 0 < k < steps.len() implies (#[trigger] steps[k]).touches_device() by {
            let tail = a + b + c + d + e + f;
            assert(steps =~= seq![Release::<A>::WaitIdle] + tail);
            assert(steps[k] == tail[k - 1]);
            assert(only_touching(tail));
        }
    }

    /// The slot's objects for a frame.
    pub fn get_frame(&self, framenumber: i64) -> (frame: &Frame<A>)
        requires
            self.frames.frames@.len() > 0,
        ensures
            *frame == self.frames.frames@[slot_of(framenumber, self.frames.slots())],
    {
        self.frames.get_frame(framenumber)
    }
}

} // verus!
