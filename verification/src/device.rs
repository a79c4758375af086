//! Adapter selection and the device context.
//!
//! The program enumerates the adapters and what each offers; the choice
//! among them is made here. The chosen adapter, the logical device built on
//! it and the surface make up the device context, which every other
//! component borrows and which is destroyed last.

use vstd::prelude::*;
use crate::error::EngineError;
use crate::teardown::{ObjectKind, Release};

verus! {

/// `VK_FORMAT_B8G8R8A8_SRGB`.
pub const FORMAT_B8G8R8A8_SRGB: i32 = 50;

/// `VK_FORMAT_D32_SFLOAT`.
pub const FORMAT_D32_SFLOAT: i32 = 126;

/// `VK_FORMAT_R32G32B32_SFLOAT`.
pub const FORMAT_R32G32B32_SFLOAT: i32 = 106;

/// `VK_COLOR_SPACE_SRGB_NONLINEAR_KHR`.
pub const COLOR_SPACE_SRGB_NONLINEAR: i32 = 0;

/// `VK_PRESENT_MODE_MAILBOX_KHR`.
pub const PRESENT_MODE_MAILBOX: i32 = 1;

/// `VK_PRESENT_MODE_FIFO_KHR`.
pub const PRESENT_MODE_FIFO: i32 = 2;

/// `VK_PRESENT_MODE_FIFO_RELAXED_KHR`.
pub const PRESENT_MODE_FIFO_RELAXED: i32 = 3;

/// Width and height of a surface or an image, in pixels.
#[derive(Clone, Copy, Debug, PartialEq, Eq, Structural)]
pub struct Extent {
    pub width: u32,
    pub height: u32,
}

/// A pixel format together with the colour space it is shown in.
#[derive(Clone, Copy, Debug, PartialEq, Eq, Structural)]
pub struct SurfaceFormat {
    pub format: i32,
    pub color_space: i32,
}

/// What the surface reports about itself.
#[derive(Clone, Copy, Debug, PartialEq, Eq, Structural)]
pub struct SurfaceCapabilities {
    pub min_image_count: u32,
    /// Zero means that there is no upper limit.
    pub max_image_count: u32,
    pub current_extent: Extent,
    pub current_transform: u32,
}

/// The class of an adapter, as far as the choice among adapters cares.
#[derive(Clone, Copy, Debug, PartialEq, Eq, Structural)]
pub enum DeviceType {
    Other,
    IntegratedGpu,
    DiscreteGpu,
    VirtualGpu,
    Cpu,
}

/// One queue family of an adapter: its capability mask, and whether it can
/// present to the engine's surface.
#[derive(Clone, Copy, Debug, PartialEq, Eq, Structural)]
pub struct QueueFamily {
    pub flags: u32,
    pub presents: bool,
}

/// Everything the choice needs to know about one adapter.
#[derive(Debug)]
pub struct Adapter {
    pub handle: u64,
    pub device_type: DeviceType,
    pub queue_families: Vec<QueueFamily>,
    pub formats: Vec<SurfaceFormat>,
    pub present_modes: Vec<i32>,
    pub extensions: Vec<String>,
}

/// The adapter that was chosen, and what was chosen on it.
#[derive(Clone, Copy, Debug, PartialEq, Eq, Structural)]
pub struct AdapterChoice {
    /// Position of the adapter in the enumeration.
    pub index: usize,
    pub physical_device: u64,
    pub queue_family: u32,
    pub format: SurfaceFormat,
    pub present_mode: i32,
}

/// What the instance is created with.
#[derive(Debug)]
pub struct InstanceConfig {
    pub application_name: String,
    pub api_version: u32,
    pub engine_version: u32,
    pub extensions: Vec<String>,
    pub layers: Vec<String>,
}

/// Packs a three-part version number the way Vulkan expects it: the major
/// part from bit 22 up, the minor part from bit 12 up, the patch part below.
pub open spec fn packed_version(major: u32, minor: u32, patch: u32) -> u32 {
    (major << 22) | (minor << 12) | patch
}

/// Calls `erupt::vk::make_version`, which shifts the major part left by 22
/// bits, the minor part left by 12 bits, and ors both with the patch part.
#[verifier::external_body]
fn make_version(major: u32, minor: u32, patch: u32) -> (version: u32)
    ensures
        version == packed_version(major, minor, patch),
{
    #[allow(deprecated)]
    erupt::vk::make_version(major, minor, patch)
}

/// Calls `contains` of `erupt::vk::QueueFlags` with `GRAPHICS`, which is
/// bit 0 of a queue family's capability mask. Bits that the flag type does
/// not know are dropped before the test.
#[verifier::external_body]
fn queue_flags_hold_graphics(flags: u32) -> (graphics: bool)
    ensures
        graphics == (flags & 1 == 1),
{
    erupt::vk::QueueFlags::from_bits_truncate(flags).contains(erupt::vk::QueueFlags::GRAPHICS)
}

/// A queue family the engine can use: it draws, and it presents to the
/// surface.
pub open spec fn usable_family(family: QueueFamily) -> bool {
    family.flags & 1 == 1 && family.presents
}

/// `i` is the first usable family in enumeration order.
pub open spec fn first_usable_family(families: Seq<QueueFamily>, i: int) -> bool {
    &&& 0 <= i < families.len()
    &&& usable_family(families[i])
    &&& forall|j: int| 0 <= j < i ==> !usable_family(#[trigger] families[j])
}

/// Some family is usable.
pub open spec fn has_usable_family(families: Seq<QueueFamily>) -> bool {
    exists|i: int| 0 <= i < families.len() && usable_family(#[trigger] families[i])
}

/// The format the engine likes best: 8-bit BGRA in sRGB.
pub open spec fn preferred_format() -> SurfaceFormat {
    SurfaceFormat { format: FORMAT_B8G8R8A8_SRGB, color_space: COLOR_SPACE_SRGB_NONLINEAR }
}

/// The format the engine presents in: the one it likes best where the
/// surface offers it, else whatever the surface lists first, and none
/// where the surface lists nothing.
pub open spec fn chosen_format(formats: Seq<SurfaceFormat>) -> Option<SurfaceFormat> {
    if formats.contains(preferred_format()) {
        Some(preferred_format())
    } else if formats.len() > 0 {
        Some(formats[0])
    } else {
        None
    }
}

/// Mailbox where the surface offers it, else FIFO, which every surface has.
pub open spec fn chosen_present_mode(modes: Seq<i32>) -> i32 {
    if modes.contains(PRESENT_MODE_MAILBOX) {
        PRESENT_MODE_MAILBOX
    } else {
        PRESENT_MODE_FIFO
    }
}

/// The list of extensions holds one of this name.
pub open spec fn has_extension(extensions: Seq<String>, name: Seq<char>) -> bool {
    exists|i: int| 0 <= i < extensions.len() && (#[trigger] extensions[i])@ == name
}

/// The list of extensions holds every required one.
pub open spec fn supports_all(extensions: Seq<String>, required: Seq<String>) -> bool {
    forall|k: int| 0 <= k < required.len() ==> has_extension(extensions, (#[trigger] required[k])@)
}

/// An adapter the engine can run on.
pub open spec fn suitable(adapter: Adapter, required: Seq<String>) -> bool {
    &&& has_usable_family(adapter.queue_families@)
    &&& adapter.formats@.len() > 0
    &&& supports_all(adapter.extensions@, required)
}

/// How much an adapter of this class is preferred.
pub open spec fn spec_device_rank(device_type: DeviceType) -> int {
    match device_type {
        DeviceType::DiscreteGpu => 2,
        DeviceType::IntegratedGpu => 1,
        _ => 0,
    }
}

/// `i` is the adapter to run on: it is suitable, no suitable adapter ranks
/// higher, and of the suitable adapters of its rank it is enumerated last.
pub open spec fn best_adapter(adapters: Seq<Adapter>, required: Seq<String>, i: int) -> bool {
    &&& 0 <= i < adapters.len()
    &&& suitable(adapters[i], required)
    &&& forall|j: int|
        0 <= j < adapters.len() && suitable(#[trigger] adapters[j], required) ==> {
            &&& spec_device_rank(adapters[j].device_type) <= spec_device_rank(
                adapters[i].device_type,
            )
            &&& j > i ==> spec_device_rank(adapters[j].device_type) < spec_device_rank(
                adapters[i].device_type,
            )
        }
}

/// How much an adapter of this class is preferred: a discrete one before
/// an integrated one before any other.
pub fn device_rank(device_type: DeviceType) -> (rank: u8)
    ensures
        rank == spec_device_rank(device_type),
{
    match device_type {
        DeviceType::DiscreteGpu => 2,
        DeviceType::IntegratedGpu => 1,
        _ => 0,
    }
}

/// Finds the first queue family that draws and presents.
pub fn find_queue_family(families: &Vec<QueueFamily>) -> (found: Option<u32>)
    requires
        families@.len() <= u32::MAX,
    ensures
        match found {
            Some(i) => first_usable_family(families@, i as int),
            None => !has_usable_family(families@),
        },
{
    let mut i: usize = 0;
    while i < families.len()
        invariant
            i <= families@.len(),
            families@.len() <= u32::MAX,
            forall|j: int| 0 <= j < i ==> !usable_family(#[trigger] families@[j]),
        decreases families@.len() - i,
    {
        let family = families[i];
        if queue_flags_hold_graphics(family.flags) && family.presents {
            return Some(i as u32);
        }
        i = i + 1;
    }
    None
}

/// Picks the surface format, or none where the surface lists none.
pub fn choose_surface_format(formats: &Vec<SurfaceFormat>) -> (format: Option<SurfaceFormat>)
    ensures
        format == chosen_format(formats@),
{
    let wanted = SurfaceFormat {
        format: FORMAT_B8G8R8A8_SRGB,
        color_space: COLOR_SPACE_SRGB_NONLINEAR,
    };
    let mut i: usize = 0;
    while i < formats.len()
        invariant
            i <= formats@.len(),
            wanted == preferred_format(),
            forall|j: int| 0 <= j < i ==> formats@[j] != wanted,
        decreases formats@.len() - i,
    {
        if formats[i] == wanted {
            return Some(wanted);
        }
        i = i + 1;
    }
    if formats.len() > 0 {
        Some(formats[0])
    } else {
        None
    }
}

/// Picks the presentation mode that adapter selection records.
pub fn choose_present_mode(modes: &Vec<i32>) -> (mode: i32)
    ensures
        mode == chosen_present_mode(modes@),
{
    let mut i: usize = 0;
    while i < modes.len()
        invariant
            i <= modes@.len(),
            forall|j: int| 0 <= j < i ==> modes@[j] != PRESENT_MODE_MAILBOX,
        decreases modes@.len() - i,
    {
        if modes[i] == PRESENT_MODE_MAILBOX {
            return PRESENT_MODE_MAILBOX;
        }
        i = i + 1;
    }
    PRESENT_MODE_FIFO
}

/// Whether an extension of this name is in the list.
pub fn extension_listed(extensions: &Vec<String>, name: &String) -> (listed: bool)
    ensures
        listed == has_extension(extensions@, name@),
{
    let mut i: usize = 0;
    while i < extensions.len()
        invariant
            i <= extensions@.len(),
            forall|j: int| 0 <= j < i ==> (#[trigger] extensions@[j])@ != name@,
        decreases extensions@.len() - i,
    {
        if extensions[i] == *name {
            return true;
        }
        i = i + 1;
    }
    false
}

/// Whether every required extension is in the list.
pub fn extensions_supported(extensions: &Vec<String>, required: &Vec<String>) -> (supported: bool)
    ensures
        supported == supports_all(extensions@, required@),
{
    let mut k: usize = 0;
    while k < required.len()
        invariant
            k <= required@.len(),
            forall|j: int| 0 <= j < k ==> has_extension(extensions@, (#[trigger] required@[j])@),
        decreases required@.len() - k,
    {
        if !extension_listed(extensions, &required[k]) {
            return false;
        }
        k = k + 1;
    }
    true
}

/// Judges one adapter: what would be chosen on it, or nothing where it is
/// not suitable.
pub fn evaluate_adapter(adapter: &Adapter, index: usize, required: &Vec<String>) -> (choice: Option<
    AdapterChoice,
>)
    requires
        adapter.queue_families@.len() <= u32::MAX,
    ensures
        choice is Some <==> suitable(*adapter, required@),
        choice is Some ==> {
            let c = choice->Some_0;
            &&& c.index == index
            &&& c.physical_device == adapter.handle
            &&& first_usable_family(adapter.queue_families@, c.queue_family as int)
            &&& Some(c.format) == chosen_format(adapter.formats@)
            &&& c.present_mode == chosen_present_mode(adapter.present_modes@)
        },
{
    let queue_family = match find_queue_family(&adapter.queue_families) {
        Some(queue_family) => queue_family,
        None => {
            return None;
        },
    };
    let format = match choose_surface_format(&adapter.formats) {
        Some(format) => format,
        None => {
            return None;
        },
    };
    let present_mode = choose_present_mode(&adapter.present_modes);
    if !extensions_supported(&adapter.extensions, required) {
        return None;
    }
    Some(
        AdapterChoice {
            index,
            physical_device: adapter.handle,
            queue_family,
            format,
            present_mode,
        },
    )
}

/// Every adapter lists few enough queue families for a family's index to
/// fit the 32 bits the device gives it.
pub open spec fn adapters_well_formed(adapters: Seq<Adapter>) -> bool {
    forall|i: int|
        0 <= i < adapters.len() ==> (#[trigger] adapters[i]).queue_families@.len() <= u32::MAX
}

/// Chooses the adapter to run on: a discrete one before an integrated one
/// before any other, and of several equally good ones the last enumerated.
/// Fails exactly when no adapter is suitable.
pub fn select_adapter(adapters: &Vec<Adapter>, required: &Vec<String>) -> (choice: Result<
    AdapterChoice,
    EngineError,
>)
    requires
        adapters_well_formed(adapters@),
    ensures
        match choice {
            Ok(c) => {
                &&& best_adapter(adapters@, required@, c.index as int)
                &&& c.physical_device == adapters@[c.index as int].handle
                &&& first_usable_family(
                    adapters@[c.index as int].queue_families@,
                    c.queue_family as int,
                )
                &&& Some(c.format) == chosen_format(adapters@[c.index as int].formats@)
                &&& c.present_mode == chosen_present_mode(adapters@[c.index as int].present_modes@)
            },
            Err(e) => {
                &&& e == EngineError::NoSuitableDevice
                &&& forall|i: int|
                    0 <= i < adapters@.len() ==> !suitable(#[trigger] adapters@[i], required@)
            },
        },
{
    let mut best: Option<AdapterChoice> = None;
    let mut best_rank: u8 = 0;
    let mut i: usize = 0;
    while i < adapters.len()
        invariant
            i <= adapters@.len(),
            adapters_well_formed(adapters@),
            best is None ==> forall|j: int|
                0 <= j < i ==> !suitable(#[trigger] adapters@[j], required@),
            best is Some ==> {
                let c = best->Some_0;
                &&& c.index < i
                &&& best_adapter(adapters@.take(i as int), required@, c.index as int)
                &&& best_rank == spec_device_rank(adapters@[c.index as int].device_type)
                &&& c.physical_device == adapters@[c.index as int].handle
                &&& first_usable_family(
                    adapters@[c.index as int].queue_families@,
                    c.queue_family as int,
                )
                &&& Some(c.format) == chosen_format(adapters@[c.index as int].formats@)
                &&& c.present_mode == chosen_present_mode(adapters@[c.index as int].present_modes@)
            },
        decreases adapters@.len() - i,
    {
        let adapter = &adapters[i];
        let candidate = evaluate_adapter(adapter, i, required);
        let ghost before = adapters@.take(i as int);
        let ghost after = adapters@.take(i + 1);
        proof {
            assert forall|j: int| 0 <= j < i implies #[trigger] after[j] == before[j] by {}
            assert(after[i as int] == adapters@[i as int]);
        }
        match candidate {
            Some(c) => {
                let rank = device_rank(adapter.device_type);
                if best.is_none() || rank >= best_rank {
                    proof {
                        assert forall|j: int|
                            0 <= j < after.len() && suitable(
                                #[trigger] after[j],
                                required@,
                            ) implies spec_device_rank(after[j].device_type) <= rank && (j > i
                            ==> spec_device_rank(after[j].device_type) < rank) by {
                            if j < i {
                                assert(after[j] == before[j]);
                                assert(suitable(adapters@[j], required@));
                            }
                        }
                    }
                    best = Some(c);
                    best_rank = rank;
                } else {
                    proof {
                        let b = best->Some_0.index as int;
                        assert(after[b] == before[b]);
                        assert forall|j: int|
                            0 <= j < after.len() && suitable(
                                #[trigger] after[j],
                                required@,
                            ) implies spec_device_rank(after[j].device_type) <= best_rank && (j
                            > b ==> spec_device_rank(after[j].device_type) < best_rank) by {
                            if j < i {
                                assert(after[j] == before[j]);
                            }
                        }
                    }
                }
            },
            None => {
                proof {
                    if best is Some {
                        let b = best->Some_0.index as int;
                        assert(after[b] == before[b]);
                        assert forall|j: int|
                            0 <= j < after.len() && suitable(
                                #[trigger] after[j],
                                required@,
                            ) implies spec_device_rank(after[j].device_type) <= best_rank && (j
                            > b ==> spec_device_rank(after[j].device_type) < best_rank) by {
                            if j < i {
                                assert(after[j] == before[j]);
                            }
                        }
                    }
                }
            },
        }
        i = i + 1;
    }
    proof {
        assert(adapters@.take(i as int) =~= adapters@);
    }
    match best {
        Some(c) => Ok(c),
        None => Err(EngineError::NoSuitableDevice),
    }
}

/// The device extensions the engine enables: the swapchain, and buffer
/// device addresses.
pub fn device_extensions() -> (names: Vec<String>)
    ensures
        names@.len() == 2,
        names@[0]@ == "VK_KHR_swapchain"@,
        names@[1]@ == "VK_KHR_buffer_device_address"@,
{
    let mut names: Vec<String> = Vec::new();
    names.push("VK_KHR_swapchain".to_string());
    names.push("VK_KHR_buffer_device_address".to_string());
    names
}

/// The layers enabled on instance and device: the validation layer when
/// diagnostics are wanted, none otherwise.
pub fn validation_layers(diagnostics: bool) -> (names: Vec<String>)
    ensures
        diagnostics ==> names@.len() == 1 && names@[0]@ == "VK_LAYER_KHRONOS_validation"@,
        !diagnostics ==> names@.len() == 0,
{
    let mut names: Vec<String> = Vec::new();
    if diagnostics {
        names.push("VK_LAYER_KHRONOS_validation".to_string());
    }
    names
}

/// Describes the instance: Vulkan 1.2.0, the extensions the window needs
/// in the order given, and with diagnostics the debug messenger's
/// extension after them and the validation layer.
pub fn instance_config(window_extensions: Vec<String>, diagnostics: bool) -> (config:
    InstanceConfig)
    ensures
        config.application_name@ == "Renderupt"@,
        config.api_version == packed_version(1, 2, 0) == 0x40_2000,
        config.engine_version == packed_version(1, 1, 0) == 0x40_1000,
        diagnostics ==> config.extensions@.len() == window_extensions@.len() + 1
            && config.extensions@.take(window_extensions@.len() as int) == window_extensions@
            && config.extensions@[window_extensions@.len() as int]@ == "VK_EXT_debug_utils"@,
        !diagnostics ==> config.extensions@ == window_extensions@,
        diagnostics ==> config.layers@.len() == 1 && config.layers@[0]@
            == "VK_LAYER_KHRONOS_validation"@,
        !diagnostics ==> config.layers@.len() == 0,
{
    assert(packed_version(1, 2, 0) == 0x40_2000 && packed_version(1, 1, 0) == 0x40_1000) by {
        assert((1u32 << 22) | (2u32 << 12) | 0u32 == 0x40_2000) by (bit_vector);
        assert((1u32 << 22) | (1u32 << 12) | 0u32 == 0x40_1000) by (bit_vector);
    }
    let mut extensions = window_extensions;
    if diagnostics {
        extensions.push("VK_EXT_debug_utils".to_string());
        proof {
            assert(extensions@.take(window_extensions@.len() as int) =~= window_extensions@);
        }
    }
    InstanceConfig {
        application_name: "Renderupt".to_string(),
        api_version: make_version(1, 2, 0),
        engine_version: make_version(1, 1, 0),
        extensions,
        layers: validation_layers(diagnostics),
    }
}

/// The device context: the chosen adapter, the logical device on it with
/// its one queue, the surface, and what the surface currently allows.
#[derive(Debug)]
pub struct Physical {
    pub surface_caps: SurfaceCapabilities,
    pub format: SurfaceFormat,
    pub graphics_queue: u64,
    pub graphics_queue_family: u32,
    pub physical_device: u64,
    pub device: u64,
    /// Zero where no diagnostics sink was created.
    pub messenger: u64,
    pub surface: u64,
    pub instance: u64,
    /// Set once the context has been torn down.
    pub released: bool,
}

impl Physical {
    /// What a teardown of this context consists of: the sub-allocator's
    /// backing memory first, then the device, the surface, the diagnostics
    /// sink where there is one, and the instance last.
    pub open spec fn teardown_steps<A>(&self) -> Seq<Release<A>> {
        let head = seq![
            Release::<A>::CleanupAllocator,
            Release::<A>::Destroy(ObjectKind::Device, self.device),
            Release::<A>::Destroy(ObjectKind::Surface, self.surface),
        ];
        let sink = if self.messenger != 0 {
            seq![Release::<A>::Destroy(ObjectKind::Messenger, self.messenger)]
        } else {
            Seq::<Release<A>>::empty()
        };
        head + sink + seq![Release::<A>::Destroy(ObjectKind::Instance, self.instance)]
    }

    /// What is still to be torn down: every step of a teardown, or
    /// nothing once it has been done.
    pub open spec fn pending_steps<A>(&self) -> Seq<Release<A>> {
        if self.released {
            Seq::empty()
        } else {
            self.teardown_steps::<A>()
        }
    }

    /// Puts the context together from the choice of adapter and the handles
    /// of what was created for it.
    pub fn new(
        choice: AdapterChoice,
        instance: u64,
        messenger: u64,
        surface: u64,
        device: u64,
        graphics_queue: u64,
        surface_caps: SurfaceCapabilities,
    ) -> (physical: Physical)
        ensures
            !physical.released,
            physical.surface_caps == surface_caps,
            physical.format == choice.format,
            physical.graphics_queue == graphics_queue,
            physical.graphics_queue_family == choice.queue_family,
            physical.physical_device == choice.physical_device,
            physical.device == device,
            physical.messenger == messenger,
            physical.surface == surface,
            physical.instance == instance,
    {
        Physical {
            surface_caps,
            format: choice.format,
            graphics_queue,
            graphics_queue_family: choice.queue_family,
            physical_device: choice.physical_device,
            device,
            messenger,
            surface,
            instance,
            released: false,
        }
    }

    /// Tears the context down. The first call returns the steps to carry
    /// out, in order; any later call returns none.
    pub fn cleanup<A>(&mut self) -> (steps: Vec<Release<A>>)
        ensures
            final(self).released,
            final(self).surface_caps == old(self).surface_caps,
            final(self).format == old(self).format,
            final(self).graphics_queue == old(self).graphics_queue,
            final(self).graphics_queue_family == old(self).graphics_queue_family,
            final(self).physical_device == old(self).physical_device,
            final(self).device == old(self).device,
            final(self).messenger == old(self).messenger,
            final(self).surface == old(self).surface,
            final(self).instance == old(self).instance,
            steps@ == old(self).pending_steps::<A>(),
    {
        let mut steps: Vec<Release<A>> = Vec::new();
        if self.released {
            return steps;
        }
        self.released = true;
        steps.push(Release::CleanupAllocator);
        steps.push(Release::Destroy(ObjectKind::Device, self.device));
        steps.push(Release::Destroy(ObjectKind::Surface, self.surface));
        if self.messenger != 0 {
            steps.push(Release::Destroy(ObjectKind::Messenger, self.messenger));
        }
        steps.push(Release::Destroy(ObjectKind::Instance, self.instance));
        proof {
            assert(steps@ =~= old(self).teardown_steps::<A>());
        }
        steps
    }
}

} // verus!
