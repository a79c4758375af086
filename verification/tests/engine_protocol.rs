use renderupt::buffer::{AllocatedBuffer, AllocatedImage};
use renderupt::descriptors::Descriptors;
use renderupt::device::{
    AdapterChoice, Extent, Physical, SurfaceCapabilities, SurfaceFormat,
    COLOR_SPACE_SRGB_NONLINEAR, FORMAT_B8G8R8A8_SRGB, PRESENT_MODE_FIFO,
};
use renderupt::engine::{
    GpuCommand, Step, VulkanApp, COMMAND_BUFFER_RESET_RELEASE_RESOURCES,
    COMMAND_BUFFER_USAGE_ONE_TIME_SUBMIT, PIPELINE_STAGE_COLOR_ATTACHMENT_OUTPUT,
};
use renderupt::error::EngineError;
use renderupt::frame::{Frame, Frames, SlotState};
use renderupt::mesh::{Mesh, Transform, Vertex};
use renderupt::pipeline::PipelineStruct;
use renderupt::protocol::{Phase, Reply, Resume};
use renderupt::renderpass::RenderPass;
use renderupt::scene::{Material, Scene};
use renderupt::swapchain::Swapchain;
use renderupt::teardown::{ObjectKind, Release};

const FENCE_0: u64 = 103;
const FENCE_1: u64 = 203;

fn caps(width: u32, height: u32) -> SurfaceCapabilities {
    SurfaceCapabilities {
        min_image_count: 2,
        max_image_count: 8,
        current_extent: Extent { width, height },
        current_transform: 1,
    }
}

fn physical(width: u32, height: u32) -> Physical {
    let choice = AdapterChoice {
        index: 0,
        physical_device: 90,
        queue_family: 4,
        format: SurfaceFormat {
            format: FORMAT_B8G8R8A8_SRGB,
            color_space: COLOR_SPACE_SRGB_NONLINEAR,
        },
        present_mode: PRESENT_MODE_FIFO,
    };
    Physical::new(choice, 91, 92, 93, 94, 95, caps(width, height))
}

fn frame(base: u64, block: u32) -> Frame<u32> {
    Frame::new(base + 1, base + 2, base + 3, base + 4, base + 5, AllocatedBuffer::new(base + 6, block))
}

fn transform(seed: u32) -> Transform {
    Transform { columns: [seed; 16] }
}

fn mesh(vertices: usize, buffer: u64, block: u32) -> Mesh<u32> {
    let vertex = Vertex { pos: [1, 2, 3], normal: [4, 5, 6], color: [7, 8, 9] };
    Mesh::new(vec![vertex; vertices], AllocatedBuffer::new(buffer, block))
}

fn material(pipeline: u64, layout: u64) -> Material {
    Material { pipeline: PipelineStruct::new(vec![pipeline], layout) }
}

/// Three instances: two meshes with material x, then one with material y.
fn scene() -> Scene<u32> {
    let mut scene = Scene::new();
    scene.add_render_object_with_mesh_material("a", mesh(3, 500, 11), "x", material(600, 601), transform(1));
    scene.add_render_object_with_mesh("b", mesh(36, 510, 12), "x", transform(2));
    scene.add_render_object_with_mesh_material("c", mesh(6, 520, 13), "y", material(610, 611), transform(3));
    scene
}

fn chain(physical: &Physical, handle: u64, images: u64) -> Swapchain {
    let image_handles: Vec<u64> = (0..images).map(|i| handle + 1 + i).collect();
    let view_handles: Vec<u64> = (0..images).map(|i| handle + 11 + i).collect();
    Swapchain::new(physical, handle, image_handles, view_handles).unwrap()
}

fn targets(chain: &Swapchain, handle: u64, block: u32) -> RenderPass<u32> {
    let framebuffers: Vec<u64> = (0..chain.images.len() as u64).map(|i| handle + 11 + i).collect();
    RenderPass::new(
        chain,
        handle,
        AllocatedImage::new(handle + 1, block),
        chain.extent,
        handle + 2,
        framebuffers,
    )
    .unwrap()
}

fn engine_with(scene: Scene<u32>) -> VulkanApp<u32> {
    let physical = physical(800, 600);
    let chain = chain(&physical, 20, 3);
    let targets = targets(&chain, 40, 10);
    let frames = Frames::new(2, vec![frame(100, 1), frame(200, 2)]).unwrap();
    VulkanApp::new(physical, chain, targets, Descriptors::new(70, 71), frames, scene)
}

fn engine() -> VulkanApp<u32> {
    engine_with(scene())
}

/// Draws one whole frame on a device on which everything works, and
/// returns the steps that the engine asked for.
fn draw_frame(app: &mut VulkanApp<u32>, framenumber: i64, image: u32) -> Vec<Step> {
    let mut steps = vec![app.draw(framenumber)];
    loop {
        let reply = match steps.last().unwrap() {
            Step::AcquireImage { .. } => Reply::Image(image),
            Step::Finished | Step::Abort(_) | Step::Recreate => break,
            _ => Reply::Done,
        };
        steps.push(app.advance(reply));
    }
    steps
}

fn draws_of_scene() -> Vec<GpuCommand> {
    vec![
        GpuCommand::BindPipeline { pipeline: 600 },
        GpuCommand::PushConstants { layout: 601, stage_flags: 1, offset: 0, size: 64, transform: transform(1) },
        GpuCommand::BindVertexBuffer { buffer: 500, start: 0 },
        GpuCommand::Draw { vertex_count: 3, instance_count: 1, first_vertex: 0, first_instance: 0 },
        GpuCommand::PushConstants { layout: 601, stage_flags: 1, offset: 0, size: 64, transform: transform(2) },
        GpuCommand::BindVertexBuffer { buffer: 510, start: 0 },
        GpuCommand::Draw { vertex_count: 36, instance_count: 1, first_vertex: 0, first_instance: 0 },
        GpuCommand::BindPipeline { pipeline: 610 },
        GpuCommand::PushConstants { layout: 611, stage_flags: 1, offset: 0, size: 64, transform: transform(3) },
        GpuCommand::BindVertexBuffer { buffer: 520, start: 0 },
        GpuCommand::Draw { vertex_count: 6, instance_count: 1, first_vertex: 0, first_instance: 0 },
    ]
}

fn binds(commands: &[GpuCommand]) -> usize {
    commands.iter().filter(|command| matches!(command, GpuCommand::BindPipeline { .. })).count()
}

#[test]
fn engine_constants_are_those_of_the_bindings() {
    assert_eq!(
        PIPELINE_STAGE_COLOR_ATTACHMENT_OUTPUT,
        erupt::vk::PipelineStageFlags::COLOR_ATTACHMENT_OUTPUT.bits()
    );
    assert_eq!(
        COMMAND_BUFFER_USAGE_ONE_TIME_SUBMIT,
        erupt::vk::CommandBufferUsageFlags::ONE_TIME_SUBMIT.bits()
    );
    assert_eq!(
        COMMAND_BUFFER_RESET_RELEASE_RESOURCES,
        erupt::vk::CommandBufferResetFlags::RELEASE_RESOURCES.bits()
    );
}

#[test]
fn engine_of_fitting_parts_is_ready() {
    let app = engine();
    assert_eq!(app.phase, Phase::Ready);
    assert_eq!(app.get_frame(0).render_fence, FENCE_0);
    assert_eq!(app.get_frame(1).render_fence, FENCE_1);
    assert_eq!(app.get_frame(2).render_fence, FENCE_0);
}

#[test]
fn engine_with_an_undrawable_scene_has_failed() {
    let mut scene = scene();
    scene.add_render_object("missing", "x", transform(4));
    let mut app = engine_with(scene);
    assert_eq!(app.phase, Phase::Failed(EngineError::Initialization));
    assert_eq!(app.draw(0), Step::Abort(EngineError::Initialization));
    assert_eq!(app.advance(Reply::Done), Step::Abort(EngineError::Initialization));
    // Its parts are torn down all the same.
    let steps = app.teardown();
    assert_eq!(steps[0], Release::WaitIdle);
    assert_eq!(steps.iter().filter(|step| matches!(step, Release::Free(_))).count(), 6);
}

#[test]
fn engine_of_parts_that_do_not_fit_has_failed() {
    let physical = physical(800, 600);
    let chain3 = chain(&physical, 20, 3);
    let chain2 = chain(&physical, 20, 2);
    let targets = targets(&chain2, 40, 10);
    let frames = Frames::new(2, vec![frame(100, 1), frame(200, 2)]).unwrap();
    let app = VulkanApp::new(physical, chain3, targets, Descriptors::new(70, 71), frames, scene());
    assert_eq!(app.phase, Phase::Failed(EngineError::Initialization));
}

#[test]
fn engine_with_a_slot_in_use_has_failed() {
    let physical = physical(800, 600);
    let chain = chain(&physical, 20, 3);
    let targets = targets(&chain, 40, 10);
    let mut busy = frame(200, 2);
    busy.state = SlotState::Submitted;
    let frames = Frames::new(2, vec![frame(100, 1), busy]).unwrap();
    let app = VulkanApp::new(physical, chain, targets, Descriptors::new(70, 71), frames, scene());
    assert_eq!(app.phase, Phase::Failed(EngineError::Initialization));
}

#[test]
fn material_changes_are_coalesced() {
    let app = engine();
    let commands = app.draw_objects();
    assert_eq!(commands, draws_of_scene());
    assert_eq!(binds(&commands), 2);
}

#[test]
fn alternating_materials_bind_every_time() {
    let mut scene = scene();
    scene.add_render_object("a", "x", transform(4));
    scene.add_render_object("a", "y", transform(5));
    scene.add_render_object("b", "y", transform(6));
    let app = engine_with(scene);
    // x x y x y y
    assert_eq!(binds(&app.draw_objects()), 4);
}

#[test]
fn empty_scene_draws_nothing() {
    let app = engine_with(Scene::new());
    assert_eq!(app.phase, Phase::Ready);
    assert_eq!(app.draw_objects(), Vec::new());
}

#[test]
fn a_frame_goes_through_the_eight_steps() {
    let mut app = engine();
    let steps = draw_frame(&mut app, 0, 2);
    let mut commands = vec![
        GpuCommand::Reset { flags: 1 },
        GpuCommand::Begin { flags: 1 },
        GpuCommand::BeginRenderPass {
            render_pass: 40,
            framebuffer: 53,
            extent: Extent { width: 800, height: 600 },
            framenumber: 0,
            clear_depth: 1.0f32.to_bits(),
        },
    ];
    commands.extend(draws_of_scene());
    commands.push(GpuCommand::EndRenderPass);
    commands.push(GpuCommand::End);
    assert_eq!(
        steps,
        vec![
            Step::WaitFence { fence: FENCE_0 },
            Step::ResetFence { fence: FENCE_0 },
            Step::AcquireImage { swapchain: 20, semaphore: 101 },
            Step::Record { command_buffer: 105, commands },
            Step::Submit {
                queue: 95,
                command_buffer: 105,
                wait_semaphore: 101,
                wait_stage: 0x400,
                signal_semaphore: 102,
                fence: FENCE_0,
            },
            Step::Present { queue: 95, swapchain: 20, image_index: 2, wait_semaphore: 102 },
            Step::Finished,
        ]
    );
    assert_eq!(app.phase, Phase::Ready);
    assert_eq!(app.frames.frames[0].state, SlotState::Submitted);
    assert_eq!(app.frames.frames[1].state, SlotState::Idle);
}

#[test]
fn slots_alternate_and_wait_for_their_own_fence() {
    let mut app = engine();
    // Everything that touches a slot's fence, in the order asked for.
    let mut log: Vec<(&str, u64)> = Vec::new();
    for framenumber in 0..5 {
        for step in draw_frame(&mut app, framenumber, 0) {
            match step {
                Step::WaitFence { fence } => log.push(("wait", fence)),
                Step::Submit { fence, .. } => log.push(("submit", fence)),
                _ => {}
            }
        }
    }
    assert_eq!(
        log,
        vec![
            ("wait", FENCE_0),
            ("submit", FENCE_0),
            ("wait", FENCE_1),
            ("submit", FENCE_1),
            ("wait", FENCE_0),
            ("submit", FENCE_0),
            ("wait", FENCE_1),
            ("submit", FENCE_1),
            ("wait", FENCE_0),
            ("submit", FENCE_0),
        ]
    );
    // Between two submissions with one fence there is a wait for it, so never
    // more than two frames are in flight.
    for fence in [FENCE_0, FENCE_1] {
        let mut in_flight = false;
        for (what, which) in log.iter() {
            if *which != fence {
                continue;
            }
            if *what == "submit" {
                assert!(!in_flight);
                in_flight = true;
            } else {
                in_flight = false;
            }
        }
    }
    assert_eq!(app.frames.frames[0].state, SlotState::Submitted);
    assert_eq!(app.frames.frames[1].state, SlotState::Submitted);
}

#[test]
fn a_slot_is_idle_only_after_its_fence_was_waited_for() {
    let mut app = engine();
    draw_frame(&mut app, 0, 0);
    draw_frame(&mut app, 1, 0);
    assert_eq!(app.draw(2), Step::WaitFence { fence: FENCE_0 });
    assert_eq!(app.frames.frames[0].state, SlotState::Submitted);
    assert_eq!(app.advance(Reply::Done), Step::ResetFence { fence: FENCE_0 });
    assert_eq!(app.frames.frames[0].state, SlotState::Idle);
    assert_eq!(app.frames.frames[1].state, SlotState::Submitted);
    assert_eq!(app.advance(Reply::Done), Step::AcquireImage { swapchain: 20, semaphore: 101 });
    assert!(matches!(app.advance(Reply::Image(1)), Step::Record { command_buffer: 105, .. }));
    assert_eq!(app.frames.frames[0].state, SlotState::Recording);
    assert!(matches!(app.advance(Reply::Done), Step::Submit { .. }));
    assert_eq!(app.frames.frames[0].state, SlotState::Recording);
    assert!(matches!(app.advance(Reply::Done), Step::Present { image_index: 1, .. }));
    assert_eq!(app.frames.frames[0].state, SlotState::Submitted);
}

#[test]
fn negative_frame_numbers_pick_a_slot_too() {
    let mut app = engine();
    assert_eq!(app.draw(-1), Step::WaitFence { fence: FENCE_1 });
    assert_eq!(app.slot, 1);
    assert_eq!(app.framenumber, -1);
}

#[test]
fn a_failed_wait_is_fatal() {
    let mut app = engine();
    app.draw(0);
    assert_eq!(app.advance(Reply::Failed), Step::Abort(EngineError::DeviceLost));
    assert_eq!(app.phase, Phase::Failed(EngineError::DeviceLost));
    assert_eq!(app.draw(1), Step::Abort(EngineError::DeviceLost));
    assert_eq!(app.advance(Reply::Done), Step::Abort(EngineError::DeviceLost));
}

#[test]
fn a_failed_submission_is_fatal() {
    let mut app = engine();
    app.draw(0);
    app.advance(Reply::Done);
    app.advance(Reply::Done);
    app.advance(Reply::Image(0));
    assert!(matches!(app.advance(Reply::Done), Step::Submit { .. }));
    assert_eq!(app.advance(Reply::Failed), Step::Abort(EngineError::DeviceLost));
}

#[test]
fn a_failed_presentation_is_fatal() {
    let mut app = engine();
    app.draw(0);
    app.advance(Reply::Done);
    app.advance(Reply::Done);
    app.advance(Reply::Image(0));
    app.advance(Reply::Done);
    assert!(matches!(app.advance(Reply::Done), Step::Present { .. }));
    assert_eq!(app.advance(Reply::Failed), Step::Abort(EngineError::DeviceLost));
}

#[test]
fn an_image_without_a_framebuffer_is_fatal() {
    let mut app = engine();
    app.draw(0);
    app.advance(Reply::Done);
    app.advance(Reply::Done);
    assert_eq!(app.advance(Reply::Image(3)), Step::Abort(EngineError::DeviceLost));
}

#[test]
fn a_reply_that_does_not_answer_the_step_is_fatal() {
    let mut app = engine();
    app.draw(0);
    // A wait for a fence acquires no image.
    assert_eq!(app.advance(Reply::Image(0)), Step::Abort(EngineError::DeviceLost));
    let mut app = engine();
    // Nothing was asked for yet.
    assert_eq!(app.advance(Reply::Done), Step::Abort(EngineError::DeviceLost));
    let mut app = engine();
    app.draw(0);
    app.advance(Reply::Done);
    // A reset fence is not out of date.
    assert_eq!(app.advance(Reply::OutOfDate), Step::Abort(EngineError::DeviceLost));
}

#[test]
fn drawing_in_the_middle_of_a_frame_is_fatal() {
    let mut app = engine();
    app.draw(0);
    assert_eq!(app.draw(1), Step::Abort(EngineError::DeviceLost));
    assert_eq!(app.phase, Phase::Failed(EngineError::DeviceLost));
}

#[test]
fn stale_surface_at_acquire_rebuilds_and_acquires_again() {
    let mut app = engine();
    draw_frame(&mut app, 0, 0);
    app.draw(1);
    app.advance(Reply::Done);
    assert_eq!(app.advance(Reply::Done), Step::AcquireImage { swapchain: 20, semaphore: 201 });
    assert_eq!(app.advance(Reply::OutOfDate), Step::Recreate);
    assert_eq!(app.phase, Phase::Stale { resume: Resume::Acquire });

    let steps = app.begin_recreate(caps(1024, 768));
    assert_eq!(
        steps,
        vec![
            Release::WaitIdle,
            Release::Destroy(ObjectKind::Framebuffer, 51),
            Release::Destroy(ObjectKind::Framebuffer, 52),
            Release::Destroy(ObjectKind::Framebuffer, 53),
            Release::Destroy(ObjectKind::RenderPass, 40),
            Release::Destroy(ObjectKind::ImageView, 42),
            Release::Destroy(ObjectKind::Image, 41),
            Release::Free(10),
            Release::Destroy(ObjectKind::ImageView, 31),
            Release::Destroy(ObjectKind::ImageView, 32),
            Release::Destroy(ObjectKind::ImageView, 33),
            Release::Destroy(ObjectKind::Swapchain, 20),
        ]
    );
    assert_eq!(app.phase, Phase::Rebuilding { resume: Resume::Acquire });
    assert_eq!(app.physical.surface_caps, caps(1024, 768));

    let info = Swapchain::create_info(&app.physical);
    assert_eq!(info.image_extent, Extent { width: 1024, height: 768 });
    let new_chain = chain(&app.physical, 1020, 4);
    let new_targets = targets(&new_chain, 1040, 20);
    // The frame acquires again, and does not wait for its fence again.
    assert_eq!(
        app.finish_recreate(new_chain, new_targets),
        Step::AcquireImage { swapchain: 1020, semaphore: 201 }
    );
    assert_eq!(app.phase, Phase::Acquiring);
    assert_eq!(app.render_pass.framebuffers.len(), 4);
    assert_eq!(app.swapchain.images.len(), 4);
    assert_eq!(app.render_pass.extent, Extent { width: 1024, height: 768 });

    match app.advance(Reply::Image(3)) {
        Step::Record { command_buffer, commands } => {
            assert_eq!(command_buffer, 205);
            assert_eq!(
                commands[2],
                GpuCommand::BeginRenderPass {
                    render_pass: 1040,
                    framebuffer: 1054,
                    extent: Extent { width: 1024, height: 768 },
                    framenumber: 1,
                    clear_depth: 1.0f32.to_bits(),
                }
            );
        }
        other => panic!("unexpected step {:?}", other),
    }
    assert!(matches!(app.advance(Reply::Done), Step::Submit { fence: FENCE_1, .. }));
    assert_eq!(
        app.advance(Reply::Done),
        Step::Present { queue: 95, swapchain: 1020, image_index: 3, wait_semaphore: 202 }
    );
    assert_eq!(app.advance(Reply::Done), Step::Finished);
}

#[test]
fn stale_surface_at_present_rebuilds_and_draws_the_frame_anew() {
    let mut app = engine();
    app.draw(0);
    app.advance(Reply::Done);
    app.advance(Reply::Done);
    app.advance(Reply::Image(0));
    app.advance(Reply::Done);
    app.advance(Reply::Done);
    assert_eq!(app.advance(Reply::OutOfDate), Step::Recreate);
    assert_eq!(app.phase, Phase::Stale { resume: Resume::Redraw });
    assert_eq!(app.frames.frames[0].state, SlotState::Submitted);
    let steps = app.begin_recreate(caps(320, 200));
    assert_eq!(steps.len(), 12);
    let new_chain = chain(&app.physical, 1020, 2);
    let new_targets = targets(&new_chain, 1040, 20);
    // The commands of the slot are in flight: its fence comes first.
    assert_eq!(app.finish_recreate(new_chain, new_targets), Step::WaitFence { fence: FENCE_0 });
    assert_eq!(app.phase, Phase::WaitingFence);
    assert_eq!(app.render_pass.framebuffers.len(), 2);
    assert_eq!(app.render_pass.extent, Extent { width: 320, height: 200 });
    assert_eq!(app.advance(Reply::Done), Step::ResetFence { fence: FENCE_0 });
    assert_eq!(app.frames.frames[0].state, SlotState::Idle);
    assert_eq!(app.advance(Reply::Done), Step::AcquireImage { swapchain: 1020, semaphore: 101 });
    match app.advance(Reply::Image(1)) {
        Step::Record { command_buffer, commands } => {
            assert_eq!(command_buffer, 105);
            assert_eq!(
                commands[2],
                GpuCommand::BeginRenderPass {
                    render_pass: 1040,
                    framebuffer: 1052,
                    extent: Extent { width: 320, height: 200 },
                    framenumber: 0,
                    clear_depth: 1.0f32.to_bits(),
                }
            );
        }
        other => panic!("unexpected step {:?}", other),
    }
    assert!(matches!(app.advance(Reply::Done), Step::Submit { fence: FENCE_0, .. }));
    assert!(matches!(app.advance(Reply::Done), Step::Present { image_index: 1, .. }));
    assert_eq!(app.advance(Reply::Done), Step::Finished);
    assert_eq!(app.draw(1), Step::WaitFence { fence: FENCE_1 });
}

#[test]
fn result_codes_become_replies() {
    assert_eq!(Reply::from_code(erupt::vk::Result::SUCCESS.0), Reply::Done);
    assert_eq!(Reply::from_code(erupt::vk::Result::SUBOPTIMAL_KHR.0), Reply::Done);
    assert_eq!(Reply::from_code(erupt::vk::Result::ERROR_OUT_OF_DATE_KHR.0), Reply::OutOfDate);
    assert_eq!(Reply::from_code(erupt::vk::Result::ERROR_DEVICE_LOST.0), Reply::Failed);
    assert_eq!(Reply::from_code(erupt::vk::Result::ERROR_OUT_OF_DEVICE_MEMORY.0), Reply::Failed);
    assert_eq!(Reply::from_code(erupt::vk::Result::TIMEOUT.0), Reply::Failed);
    assert_eq!(Reply::from_code(erupt::vk::Result::NOT_READY.0), Reply::Failed);
    assert_eq!(Reply::from_acquire(erupt::vk::Result::SUCCESS.0, 2), Reply::Image(2));
    assert_eq!(Reply::from_acquire(erupt::vk::Result::SUBOPTIMAL_KHR.0, 1), Reply::Image(1));
    assert_eq!(
        Reply::from_acquire(erupt::vk::Result::ERROR_OUT_OF_DATE_KHR.0, 2),
        Reply::OutOfDate
    );
    assert_eq!(Reply::from_acquire(erupt::vk::Result::TIMEOUT.0, 2), Reply::Failed);
    assert_eq!(Reply::from_acquire(erupt::vk::Result::ERROR_SURFACE_LOST_KHR.0, 0), Reply::Failed);
}

#[test]
fn rebuilt_parts_that_do_not_fit_are_fatal_but_kept() {
    let mut app = engine();
    app.draw(0);
    app.advance(Reply::Done);
    app.advance(Reply::Done);
    app.advance(Reply::OutOfDate);
    app.begin_recreate(caps(1024, 768));
    // Built for the old extent.
    let old = physical(800, 600);
    let new_chain = chain(&old, 1020, 2);
    let new_targets = targets(&new_chain, 1040, 20);
    assert_eq!(
        app.finish_recreate(new_chain, new_targets),
        Step::Abort(EngineError::Initialization)
    );
    assert_eq!(app.phase, Phase::Failed(EngineError::Initialization));
    let steps = app.teardown();
    assert!(steps.contains(&Release::Destroy(ObjectKind::Swapchain, 1020)));
    assert!(steps.contains(&Release::Free(20)));
    assert!(!steps.contains(&Release::Free(10)));
}

#[test]
fn rebuilding_without_a_stale_surface_is_fatal() {
    let mut app = engine();
    assert_eq!(app.begin_recreate(caps(1024, 768)), Vec::new());
    assert_eq!(app.phase, Phase::Failed(EngineError::DeviceLost));
    assert_eq!(app.physical.surface_caps, caps(800, 600));
}

#[test]
fn teardown_waits_for_the_device_first() {
    let mut app = engine();
    // One frame is in flight, another is in the middle of recording.
    draw_frame(&mut app, 0, 0);
    app.draw(1);
    app.advance(Reply::Done);
    app.advance(Reply::Done);
    app.advance(Reply::Image(1));
    assert_eq!(app.frames.frames[0].state, SlotState::Submitted);
    assert_eq!(app.phase, Phase::Recording);
    let steps = app.teardown();
    assert_eq!(steps[0], Release::WaitIdle);
    assert_eq!(steps.iter().filter(|step| **step == Release::WaitIdle).count(), 1);
    assert_eq!(app.phase, Phase::TornDown);
    assert_eq!(app.draw(2), Step::Abort(EngineError::DeviceLost));
    assert_eq!(app.advance(Reply::Done), Step::Abort(EngineError::DeviceLost));
}

#[test]
fn teardown_goes_scene_descriptors_frames_targets_chain_device() {
    let mut app = engine();
    let steps = app.teardown();
    assert_eq!(
        steps,
        vec![
            Release::WaitIdle,
            // The scene: meshes, then materials.
            Release::Destroy(ObjectKind::Buffer, 500),
            Release::Free(11),
            Release::Destroy(ObjectKind::Buffer, 510),
            Release::Free(12),
            Release::Destroy(ObjectKind::Buffer, 520),
            Release::Free(13),
            Release::Destroy(ObjectKind::Pipeline, 600),
            Release::Destroy(ObjectKind::PipelineLayout, 601),
            Release::Destroy(ObjectKind::Pipeline, 610),
            Release::Destroy(ObjectKind::PipelineLayout, 611),
            // The descriptors.
            Release::Destroy(ObjectKind::DescriptorPool, 71),
            Release::Destroy(ObjectKind::DescriptorSetLayout, 70),
            // The frame slots.
            Release::Destroy(ObjectKind::Semaphore, 102),
            Release::Destroy(ObjectKind::Semaphore, 101),
            Release::Destroy(ObjectKind::Fence, 103),
            Release::Destroy(ObjectKind::CommandPool, 104),
            Release::Destroy(ObjectKind::Buffer, 106),
            Release::Free(1),
            Release::Destroy(ObjectKind::Semaphore, 202),
            Release::Destroy(ObjectKind::Semaphore, 201),
            Release::Destroy(ObjectKind::Fence, 203),
            Release::Destroy(ObjectKind::CommandPool, 204),
            Release::Destroy(ObjectKind::Buffer, 206),
            Release::Free(2),
            // The render targets.
            Release::Destroy(ObjectKind::Framebuffer, 51),
            Release::Destroy(ObjectKind::Framebuffer, 52),
            Release::Destroy(ObjectKind::Framebuffer, 53),
            Release::Destroy(ObjectKind::RenderPass, 40),
            Release::Destroy(ObjectKind::ImageView, 42),
            Release::Destroy(ObjectKind::Image, 41),
            Release::Free(10),
            // The chain.
            Release::Destroy(ObjectKind::ImageView, 31),
            Release::Destroy(ObjectKind::ImageView, 32),
            Release::Destroy(ObjectKind::ImageView, 33),
            Release::Destroy(ObjectKind::Swapchain, 20),
            // The device context.
            Release::CleanupAllocator,
            Release::Destroy(ObjectKind::Device, 94),
            Release::Destroy(ObjectKind::Surface, 93),
            Release::Destroy(ObjectKind::Messenger, 92),
            Release::Destroy(ObjectKind::Instance, 91),
        ]
    );
}

#[test]
fn every_block_is_freed_exactly_once() {
    let mut app = engine();
    draw_frame(&mut app, 0, 0);
    let steps = app.teardown();
    let mut freed: Vec<u32> = steps
        .iter()
        .filter_map(|step| match step {
            Release::Free(block) => Some(*block),
            _ => None,
        })
        .collect();
    freed.sort();
    assert_eq!(freed, vec![1, 2, 10, 11, 12, 13]);
    // Each block goes directly after the object that was bound to it.
    for (position, step) in steps.iter().enumerate() {
        if matches!(step, Release::Free(_)) {
            assert!(matches!(
                steps[position - 1],
                Release::Destroy(ObjectKind::Buffer, _) | Release::Destroy(ObjectKind::Image, _)
            ));
        }
    }
    assert_eq!(app.teardown(), Vec::new());
    assert_eq!(app.teardown(), Vec::new());
}

#[test]
fn teardown_during_a_rebuild_skips_what_is_gone() {
    let mut app = engine();
    app.draw(0);
    app.advance(Reply::Done);
    app.advance(Reply::Done);
    app.advance(Reply::OutOfDate);
    let first = app.begin_recreate(caps(1024, 768));
    assert!(first.contains(&Release::Free(10)));
    let steps = app.teardown();
    assert_eq!(steps[0], Release::WaitIdle);
    assert!(!steps.contains(&Release::Free(10)));
    assert!(!steps.contains(&Release::Destroy(ObjectKind::Swapchain, 20)));
    assert!(steps.contains(&Release::Destroy(ObjectKind::Device, 94)));
    assert_eq!(steps.iter().filter(|step| matches!(step, Release::Free(_))).count(), 5);
}

#[test]
fn engine_stays_well_formed_through_a_frame() {
    let mut app = engine();
    assert!(app.is_well_formed());
    let mut step = app.draw(0);
    loop {
        assert!(app.is_well_formed());
        let reply = match step {
            Step::AcquireImage { .. } => Reply::Image(1),
            Step::Finished => break,
            _ => Reply::Done,
        };
        step = app.advance(reply);
    }
    assert!(app.is_well_formed());
    app.teardown();
    assert!(app.is_well_formed());
}

#[test]
fn engine_that_was_tampered_with_is_not_well_formed() {
    let mut app = engine();
    app.frames.frames[1].state = SlotState::Recording;
    assert!(!app.is_well_formed());

    let mut app = engine();
    app.draw(0);
    app.advance(Reply::Done);
    app.frames.frames[0].state = SlotState::Submitted;
    assert!(!app.is_well_formed());

    let mut app = engine();
    app.draw(1);
    app.slot = 2;
    assert!(!app.is_well_formed());

    let mut app = engine();
    app.scene.add_render_object("missing", "x", transform(9));
    assert!(!app.is_well_formed());

    let mut app = engine();
    app.frames.frames.pop();
    assert!(!app.is_well_formed());
}

#[test]
fn resize_between_frames_rebuilds_for_the_new_extent() {
    let mut app = engine();
    draw_frame(&mut app, 0, 0);
    assert_eq!(app.resize(), Step::Recreate);
    assert_eq!(app.phase, Phase::Stale { resume: Resume::Rest });
    assert!(app.is_well_formed());
    let steps = app.begin_recreate(caps(1600, 900));
    assert_eq!(steps[0], Release::WaitIdle);
    assert_eq!(steps.len(), 12);
    assert_eq!(app.phase, Phase::Rebuilding { resume: Resume::Rest });
    assert!(app.is_well_formed());
    let new_chain = chain(&app.physical, 1020, 5);
    let new_targets = targets(&new_chain, 1040, 20);
    assert_eq!(
        RenderPass::<u32>::depth_image_info(&app.physical).extent,
        Extent { width: 1600, height: 900 }
    );
    assert_eq!(app.finish_recreate(new_chain, new_targets), Step::Finished);
    assert_eq!(app.phase, Phase::Ready);
    assert_eq!(app.render_pass.framebuffers.len(), 5);
    assert_eq!(app.swapchain.images.len(), 5);
    assert_eq!(app.render_pass.extent, Extent { width: 1600, height: 900 });
    assert_eq!(app.swapchain.extent, Extent { width: 1600, height: 900 });
    // The next frame goes on with the next slot, and draws to the new targets.
    let steps = draw_frame(&mut app, 1, 4);
    assert_eq!(steps[0], Step::WaitFence { fence: FENCE_1 });
    assert_eq!(steps[2], Step::AcquireImage { swapchain: 1020, semaphore: 201 });
    assert_eq!(
        steps[5],
        Step::Present { queue: 95, swapchain: 1020, image_index: 4, wait_semaphore: 202 }
    );
}

#[test]
fn resize_in_the_middle_of_a_frame_is_fatal() {
    let mut app = engine();
    app.draw(0);
    assert_eq!(app.resize(), Step::Abort(EngineError::DeviceLost));
    assert_eq!(app.phase, Phase::Failed(EngineError::DeviceLost));
    assert_eq!(app.resize(), Step::Abort(EngineError::DeviceLost));
    app.teardown();
    assert_eq!(app.resize(), Step::Abort(EngineError::DeviceLost));
}
