use renderupt::device::{
    choose_present_mode, choose_surface_format, device_extensions, device_rank,
    extension_listed, extensions_supported, find_queue_family, instance_config, select_adapter,
    validation_layers, Adapter, AdapterChoice, DeviceType, Extent, Physical, QueueFamily,
    SurfaceCapabilities, SurfaceFormat, COLOR_SPACE_SRGB_NONLINEAR, FORMAT_B8G8R8A8_SRGB,
    FORMAT_D32_SFLOAT, FORMAT_R32G32B32_SFLOAT, PRESENT_MODE_FIFO, PRESENT_MODE_FIFO_RELAXED,
    PRESENT_MODE_MAILBOX,
};
use renderupt::error::{
    classify, EngineError, RESULT_OUT_OF_DATE, RESULT_OUT_OF_DEVICE_MEMORY,
    RESULT_OUT_OF_HOST_MEMORY, RESULT_SUBOPTIMAL, RESULT_SUCCESS,
};
use renderupt::teardown::{ObjectKind, Release};

const GRAPHICS: u32 = 0x1;
const COMPUTE: u32 = 0x2;
const TRANSFER: u32 = 0x4;

fn names(list: &[&str]) -> Vec<String> {
    list.iter().map(|name| name.to_string()).collect()
}

fn srgb() -> SurfaceFormat {
    SurfaceFormat { format: FORMAT_B8G8R8A8_SRGB, color_space: COLOR_SPACE_SRGB_NONLINEAR }
}

fn adapter(handle: u64, device_type: DeviceType) -> Adapter {
    Adapter {
        handle,
        device_type,
        queue_families: vec![QueueFamily { flags: GRAPHICS | COMPUTE, presents: true }],
        formats: vec![srgb()],
        present_modes: vec![PRESENT_MODE_FIFO],
        extensions: names(&["VK_KHR_swapchain", "VK_KHR_buffer_device_address"]),
    }
}

fn caps(width: u32, height: u32) -> SurfaceCapabilities {
    SurfaceCapabilities {
        min_image_count: 2,
        max_image_count: 8,
        current_extent: Extent { width, height },
        current_transform: 1,
    }
}

#[test]
fn constants_are_those_of_the_bindings() {
    assert_eq!(FORMAT_B8G8R8A8_SRGB, erupt::vk::Format::B8G8R8A8_SRGB.0);
    assert_eq!(FORMAT_D32_SFLOAT, erupt::vk::Format::D32_SFLOAT.0);
    assert_eq!(FORMAT_R32G32B32_SFLOAT, erupt::vk::Format::R32G32B32_SFLOAT.0);
    assert_eq!(COLOR_SPACE_SRGB_NONLINEAR, erupt::vk::ColorSpaceKHR::SRGB_NONLINEAR_KHR.0);
    assert_eq!(PRESENT_MODE_MAILBOX, erupt::vk::PresentModeKHR::MAILBOX_KHR.0);
    assert_eq!(PRESENT_MODE_FIFO, erupt::vk::PresentModeKHR::FIFO_KHR.0);
    assert_eq!(PRESENT_MODE_FIFO_RELAXED, erupt::vk::PresentModeKHR::FIFO_RELAXED_KHR.0);
}

#[test]
fn rank_prefers_discrete_over_integrated_over_the_rest() {
    assert_eq!(device_rank(DeviceType::DiscreteGpu), 2);
    assert_eq!(device_rank(DeviceType::IntegratedGpu), 1);
    assert_eq!(device_rank(DeviceType::VirtualGpu), 0);
    assert_eq!(device_rank(DeviceType::Cpu), 0);
    assert_eq!(device_rank(DeviceType::Other), 0);
}

#[test]
fn queue_family_is_the_first_that_draws_and_presents() {
    let families = vec![
        QueueFamily { flags: COMPUTE | TRANSFER, presents: true },
        QueueFamily { flags: GRAPHICS, presents: false },
        QueueFamily { flags: GRAPHICS | TRANSFER, presents: true },
        QueueFamily { flags: GRAPHICS, presents: true },
    ];
    assert_eq!(find_queue_family(&families), Some(2));
}

#[test]
fn queue_family_needs_the_graphics_bit() {
    // A mask with every bit but the lowest does not draw.
    let families = vec![QueueFamily { flags: 0xffff_fffe, presents: true }];
    assert_eq!(find_queue_family(&families), None);
    let families = vec![QueueFamily { flags: 0xffff_ffff, presents: true }];
    assert_eq!(find_queue_family(&families), Some(0));
    assert_eq!(find_queue_family(&Vec::new()), None);
}

#[test]
fn surface_format_prefers_srgb_bgra() {
    let other = SurfaceFormat { format: 44, color_space: 0 };
    assert_eq!(choose_surface_format(&vec![other, srgb()]), Some(srgb()));
    assert_eq!(choose_surface_format(&vec![other]), Some(other));
    assert_eq!(choose_surface_format(&Vec::new()), None);
}

#[test]
fn surface_format_needs_both_format_and_colour_space() {
    let wrong_space = SurfaceFormat { format: FORMAT_B8G8R8A8_SRGB, color_space: 1000104001 };
    let wrong_format = SurfaceFormat { format: 37, color_space: COLOR_SPACE_SRGB_NONLINEAR };
    assert_eq!(choose_surface_format(&vec![wrong_space, wrong_format]), Some(wrong_space));
}

#[test]
fn present_mode_is_mailbox_or_else_fifo() {
    assert_eq!(choose_present_mode(&vec![0, 2, 1]), PRESENT_MODE_MAILBOX);
    assert_eq!(choose_present_mode(&vec![0, 2, 3]), PRESENT_MODE_FIFO);
    assert_eq!(choose_present_mode(&Vec::new()), PRESENT_MODE_FIFO);
}

#[test]
fn extensions_must_all_be_listed() {
    let listed = names(&["VK_KHR_maintenance1", "VK_KHR_swapchain", "VK_KHR_buffer_device_address"]);
    assert!(extension_listed(&listed, &"VK_KHR_swapchain".to_string()));
    assert!(!extension_listed(&listed, &"VK_KHR_swapchai".to_string()));
    assert!(extensions_supported(&listed, &device_extensions()));
    assert!(!extensions_supported(&names(&["VK_KHR_swapchain"]), &device_extensions()));
    assert!(extensions_supported(&Vec::new(), &Vec::new()));
}

#[test]
fn device_extensions_are_swapchain_and_buffer_device_address() {
    assert_eq!(device_extensions(), names(&["VK_KHR_swapchain", "VK_KHR_buffer_device_address"]));
}

#[test]
fn validation_layer_only_with_diagnostics() {
    assert_eq!(validation_layers(true), names(&["VK_LAYER_KHRONOS_validation"]));
    assert_eq!(validation_layers(false), Vec::<String>::new());
}

#[test]
fn discrete_adapter_wins_over_integrated() {
    let adapters = vec![
        adapter(10, DeviceType::IntegratedGpu),
        adapter(11, DeviceType::DiscreteGpu),
        adapter(12, DeviceType::Cpu),
    ];
    let choice = select_adapter(&adapters, &device_extensions()).unwrap();
    assert_eq!(
        choice,
        AdapterChoice {
            index: 1,
            physical_device: 11,
            queue_family: 0,
            format: srgb(),
            present_mode: PRESENT_MODE_FIFO,
        }
    );
}

#[test]
fn equally_good_adapters_give_the_last_enumerated() {
    let adapters = vec![
        adapter(10, DeviceType::DiscreteGpu),
        adapter(11, DeviceType::IntegratedGpu),
        adapter(12, DeviceType::DiscreteGpu),
        adapter(13, DeviceType::IntegratedGpu),
    ];
    let choice = select_adapter(&adapters, &device_extensions()).unwrap();
    assert_eq!(choice.index, 2);
    assert_eq!(choice.physical_device, 12);
}

#[test]
fn unsuitable_adapters_are_passed_over() {
    let mut no_queue = adapter(10, DeviceType::DiscreteGpu);
    no_queue.queue_families = vec![QueueFamily { flags: GRAPHICS, presents: false }];
    let mut no_format = adapter(11, DeviceType::DiscreteGpu);
    no_format.formats = Vec::new();
    let mut no_extension = adapter(12, DeviceType::DiscreteGpu);
    no_extension.extensions = names(&["VK_KHR_swapchain"]);
    let mut integrated = adapter(13, DeviceType::IntegratedGpu);
    integrated.queue_families = vec![
        QueueFamily { flags: TRANSFER, presents: true },
        QueueFamily { flags: GRAPHICS, presents: true },
    ];
    integrated.present_modes = vec![PRESENT_MODE_FIFO, PRESENT_MODE_MAILBOX];
    let adapters = vec![no_queue, no_format, integrated, no_extension];
    let choice = select_adapter(&adapters, &device_extensions()).unwrap();
    assert_eq!(
        choice,
        AdapterChoice {
            index: 2,
            physical_device: 13,
            queue_family: 1,
            format: srgb(),
            present_mode: PRESENT_MODE_MAILBOX,
        }
    );
}

#[test]
fn no_suitable_adapter_is_an_error() {
    let mut unsuitable = adapter(10, DeviceType::DiscreteGpu);
    unsuitable.formats = Vec::new();
    assert_eq!(
        select_adapter(&vec![unsuitable], &device_extensions()),
        Err(EngineError::NoSuitableDevice)
    );
    assert_eq!(
        select_adapter(&Vec::new(), &device_extensions()),
        Err(EngineError::NoSuitableDevice)
    );
}

#[test]
fn instance_asks_for_vulkan_1_2() {
    let config = instance_config(names(&["VK_KHR_surface", "VK_KHR_xcb_surface"]), true);
    assert_eq!(config.application_name, "Renderupt");
    assert_eq!(config.api_version, (1 << 22) | (2 << 12));
    assert_eq!(config.api_version, 4202496);
    assert_eq!(config.engine_version, 4198400);
    assert_eq!(
        config.extensions,
        names(&["VK_KHR_surface", "VK_KHR_xcb_surface", "VK_EXT_debug_utils"])
    );
    assert_eq!(config.layers, names(&["VK_LAYER_KHRONOS_validation"]));
}

#[test]
fn instance_without_diagnostics_adds_nothing() {
    let config = instance_config(names(&["VK_KHR_surface"]), false);
    assert_eq!(config.extensions, names(&["VK_KHR_surface"]));
    assert_eq!(config.layers, Vec::<String>::new());
}

#[test]
fn device_context_holds_what_was_chosen() {
    let choice = AdapterChoice {
        index: 0,
        physical_device: 7,
        queue_family: 3,
        format: srgb(),
        present_mode: PRESENT_MODE_FIFO,
    };
    let physical = Physical::new(choice, 1, 2, 3, 4, 5, caps(800, 600));
    assert_eq!(physical.instance, 1);
    assert_eq!(physical.messenger, 2);
    assert_eq!(physical.surface, 3);
    assert_eq!(physical.device, 4);
    assert_eq!(physical.graphics_queue, 5);
    assert_eq!(physical.graphics_queue_family, 3);
    assert_eq!(physical.physical_device, 7);
    assert_eq!(physical.format, srgb());
    assert_eq!(physical.surface_caps, caps(800, 600));
    assert!(!physical.released);
}

#[test]
fn device_context_goes_allocator_device_surface_messenger_instance() {
    let choice = AdapterChoice {
        index: 0,
        physical_device: 7,
        queue_family: 0,
        format: srgb(),
        present_mode: PRESENT_MODE_FIFO,
    };
    let mut physical = Physical::new(choice, 1, 2, 3, 4, 5, caps(800, 600));
    let steps: Vec<Release<u32>> = physical.cleanup();
    assert_eq!(
        steps,
        vec![
            Release::CleanupAllocator,
            Release::Destroy(ObjectKind::Device, 4),
            Release::Destroy(ObjectKind::Surface, 3),
            Release::Destroy(ObjectKind::Messenger, 2),
            Release::Destroy(ObjectKind::Instance, 1),
        ]
    );
    assert!(physical.released);
    let again: Vec<Release<u32>> = physical.cleanup();
    assert_eq!(again, Vec::new());
}

#[test]
fn device_context_without_messenger_destroys_none() {
    let choice = AdapterChoice {
        index: 0,
        physical_device: 7,
        queue_family: 0,
        format: srgb(),
        present_mode: PRESENT_MODE_FIFO,
    };
    let mut physical = Physical::new(choice, 1, 0, 3, 4, 5, caps(800, 600));
    let steps: Vec<Release<u32>> = physical.cleanup();
    assert_eq!(
        steps,
        vec![
            Release::CleanupAllocator,
            Release::Destroy(ObjectKind::Device, 4),
            Release::Destroy(ObjectKind::Surface, 3),
            Release::Destroy(ObjectKind::Instance, 1),
        ]
    );
}

#[test]
fn errors_describe_themselves() {
    assert_eq!(EngineError::NoSuitableDevice.describe(), "no suitable physical device found");
    assert_eq!(EngineError::Initialization.describe(), "initialization failed");
    assert_eq!(EngineError::OutOfDateSurface.describe(), "surface out of date");
    assert_eq!(EngineError::OutOfMemory.describe(), "out of device memory");
    assert_eq!(EngineError::DeviceLost.describe(), "device lost");
}

#[test]
fn only_a_stale_surface_is_recoverable() {
    assert!(EngineError::OutOfDateSurface.is_recoverable());
    assert!(!EngineError::NoSuitableDevice.is_recoverable());
    assert!(!EngineError::Initialization.is_recoverable());
    assert!(!EngineError::OutOfMemory.is_recoverable());
    assert!(!EngineError::DeviceLost.is_recoverable());
}

#[test]
fn result_codes_are_those_of_the_bindings() {
    assert_eq!(RESULT_SUCCESS, erupt::vk::Result::SUCCESS.0);
    assert_eq!(RESULT_SUBOPTIMAL, erupt::vk::Result::SUBOPTIMAL_KHR.0);
    assert_eq!(RESULT_OUT_OF_DATE, erupt::vk::Result::ERROR_OUT_OF_DATE_KHR.0);
    assert_eq!(RESULT_OUT_OF_HOST_MEMORY, erupt::vk::Result::ERROR_OUT_OF_HOST_MEMORY.0);
    assert_eq!(RESULT_OUT_OF_DEVICE_MEMORY, erupt::vk::Result::ERROR_OUT_OF_DEVICE_MEMORY.0);
}

#[test]
fn result_codes_are_told_apart() {
    assert_eq!(classify(0), Ok(()));
    assert_eq!(classify(1000001003), Ok(()));
    assert_eq!(classify(-1000001004), Err(EngineError::OutOfDateSurface));
    assert_eq!(classify(-1), Err(EngineError::OutOfMemory));
    assert_eq!(classify(-2), Err(EngineError::OutOfMemory));
    assert_eq!(classify(-4), Err(EngineError::DeviceLost));
    assert_eq!(classify(-3), Err(EngineError::DeviceLost));
    assert_eq!(classify(2), Err(EngineError::DeviceLost));
    assert_eq!(classify(1), Err(EngineError::DeviceLost));
    assert_eq!(classify(i32::MIN), Err(EngineError::DeviceLost));
    assert_eq!(classify(i32::MAX), Err(EngineError::DeviceLost));
}
