//! Choice of the physical device and description of the logical device.
use vstd::prelude::*;

use crate::renderer::resource::Resource;
use crate::renderer::swapchain::SwapchainSupportDetails;

verus! {

/// Capability bit of a queue family that accepts graphics work.
pub const QUEUE_GRAPHICS: u32 = 0x1;

/// The device's way of saying "yes" for an optional feature.
pub const FEATURE_ENABLED: u32 = 1;

/// The queue families the renderer submits to. They may coincide.
#[derive(Clone, Copy, Debug, PartialEq, Eq, Structural)]
pub struct QueueFamilyIndices {
    pub graphics_index: u32,
    pub present_index: u32,
}

/// What one queue family of a physical device offers.
#[derive(Clone, Copy, Debug, PartialEq, Eq, Structural)]
pub struct QueueFamily {
    /// How many queues the family has.
    pub queue_count: u32,
    /// The capability bits of the family.
    pub queue_flags: u32,
    /// Whether the family can present to the surface in question.
    pub present_support: bool,
}

/// What a physical device reports of itself, as far as the choice reads it.
#[derive(Debug, PartialEq, Eq)]
pub struct PhysicalDeviceInfo {
    /// The raw handle of the device.
    pub handle: u64,
    /// The queue families, each at the position that is its identifier.
    pub queue_families: Vec<QueueFamily>,
    /// The names of the device extensions on offer, as bytes without terminator.
    pub extensions: Vec<Vec<u8>>,
    /// What the device supports on the surface in question.
    pub swapchain_support: SwapchainSupportDetails,
    /// The anisotropic sampling feature as the device reports it.
    pub sampler_anisotropy: u32,
}

/// One family of queues to create with the logical device: a single queue, at
/// the highest priority.
#[derive(Clone, Copy, Debug, PartialEq, Eq, Structural)]
pub struct DeviceQueueCreateInfo {
    pub queue_family_index: u32,
    pub queue_count: u32,
}

/// The description from which the logical device is created.
#[derive(Debug, PartialEq, Eq)]
pub struct DeviceCreateInfo {
    pub queue_create_infos: Vec<DeviceQueueCreateInfo>,
    pub enabled_extension_names: Vec<Vec<u8>>,
    pub sampler_anisotropy: bool,
}

/// The name of the device extension that provides presentable image chains,
/// `VK_KHR_swapchain`, as bytes.
pub open spec fn swapchain_extension_name() -> Seq<u8> {
    seq![
        0x56u8, 0x4b, 0x5f, 0x4b, 0x48, 0x52, 0x5f, 0x73, 0x77, 0x61, 0x70, 0x63, 0x68, 0x61, 0x69,
        0x6e,
    ]
}

/// The names held by a list of byte vectors.
pub open spec fn names_of(names: Seq<Vec<u8>>) -> Seq<Seq<u8>> {
    names.map_values(|name: Vec<u8>| name@)
}

/// The device extensions the renderer cannot do without.
pub open spec fn required_device_extensions() -> Seq<Seq<u8>> {
    seq![swapchain_extension_name()]
}

/// Whether a family has queues and accepts graphics work.
pub open spec fn accepts_graphics(family: QueueFamily) -> bool {
    family.queue_count > 0 && family.queue_flags & QUEUE_GRAPHICS == QUEUE_GRAPHICS
}

/// Whether a family has queues and can present to the surface.
pub open spec fn accepts_present(family: QueueFamily) -> bool {
    family.queue_count > 0 && family.present_support
}

/// Whether `found` is the first position in `families` at which `accepts`
/// holds: `None` exactly when it holds nowhere.
pub open spec fn is_first_family(
    families: Seq<QueueFamily>,
    accepts: spec_fn(QueueFamily) -> bool,
    found: Option<u32>,
) -> bool {
    match found {
        Some(index) => {
            &&& index < families.len()
            &&& accepts(families[index as int])
            &&& forall|j: int| 0 <= j < index ==> !accepts(#[trigger] families[j])
        },
        None => forall|j: int| 0 <= j < families.len() ==> !accepts(#[trigger] families[j]),
    }
}

/// Whether some family accepts graphics work.
pub open spec fn has_graphics_family(families: Seq<QueueFamily>) -> bool {
    exists|j: int| 0 <= j < families.len() && accepts_graphics(#[trigger] families[j])
}

/// Whether some family can present to the surface.
pub open spec fn has_present_family(families: Seq<QueueFamily>) -> bool {
    exists|j: int| 0 <= j < families.len() && accepts_present(#[trigger] families[j])
}

/// Whether every required extension is among those on offer.
pub open spec fn supports_required_extensions(available: Seq<Seq<u8>>) -> bool {
    forall|r: int|
        0 <= r < required_device_extensions().len() ==> available.contains(
            #[trigger] required_device_extensions()[r],
        )
}

/// The suitability predicate: graphics and presentation queues, the required
/// extensions, at least one surface format and one present mode, and
/// anisotropic sampling.
pub open spec fn suitable(device: PhysicalDeviceInfo) -> bool {
    &&& has_graphics_family(device.queue_families@)
    &&& has_present_family(device.queue_families@)
    &&& supports_required_extensions(names_of(device.extensions@))
    &&& device.swapchain_support.formats@.len() > 0
    &&& device.swapchain_support.present_modes@.len() > 0
    &&& device.sampler_anisotropy == FEATURE_ENABLED
}

/// Whether two names are the same bytes.
fn same_name(a: &Vec<u8>, b: &Vec<u8>) -> (same: bool)
    ensures
        same == (a@ == b@),
{
    if a.len() != b.len() {
        return false;
    }
    let mut i: usize = 0;
    while i < a.len()
        invariant
            i <= a@.len(),
            a@.len() == b@.len(),
            forall|j: int| 0 <= j < i ==> a@[j] == b@[j],
        decreases a@.len() - i,
    {
        if a[i] != b[i] {
            return false;
        }
        i = i + 1;
    }
    assert(a@ =~= b@);
    true
}

/// Whether `wanted` is among `names`.
fn has_name(names: &Vec<Vec<u8>>, wanted: &Vec<u8>) -> (found: bool)
    ensures
        found == names_of(names@).contains(wanted@),
{
    let mut i: usize = 0;
    while i < names.len()
        invariant
            i <= names@.len(),
            forall|j: int| 0 <= j < i ==> names_of(names@)[j] != wanted@,
        decreases names@.len() - i,
    {
        if same_name(&names[i], wanted) {
            assert(names_of(names@)[i as int] == wanted@);
            return true;
        }
        i = i + 1;
    }
    false
}

/// Whether `found` is the first position below `scanned` at which `accepts`
/// holds: what a scan knows after looking at the first `scanned` families.
spec fn is_first_family_below(
    families: Seq<QueueFamily>,
    accepts: spec_fn(QueueFamily) -> bool,
    found: Option<u32>,
    scanned: int,
) -> bool {
    match found {
        Some(index) => {
            &&& index < scanned
            &&& accepts(families[index as int])
            &&& forall|j: int| 0 <= j < index ==> !accepts(#[trigger] families[j])
        },
        None => forall|j: int| 0 <= j < scanned ==> !accepts(#[trigger] families[j]),
    }
}

/// The queue families resolved for a device: the first that accepts graphics
/// work and the first that can present.
pub open spec fn resolved_families(
    families: Seq<QueueFamily>,
    graphics: Option<u32>,
    present: Option<u32>,
) -> bool {
    &&& is_first_family(families, |family: QueueFamily| accepts_graphics(family), graphics)
    &&& is_first_family(families, |family: QueueFamily| accepts_present(family), present)
}

/// Whether the families of every listed device can be numbered by `u32`.
pub open spec fn families_are_countable(devices: Seq<PhysicalDeviceInfo>) -> bool {
    forall|d: int| 0 <= d < devices.len() ==> (#[trigger] devices[d]).queue_families@.len() <= u32::MAX
}

/// The graphics device the renderer runs on, as far as its own decisions go:
/// which physical device was chosen, which queue families were resolved for
/// it, and which handles have to be given back at the end.
#[derive(Debug, PartialEq, Eq)]
pub struct VkContext {
    pub queue_family_indices: QueueFamilyIndices,
    pub physical_device: u64,
    pub surface_khr: u64,
    pub debug_report_callback: Option<u64>,
}

impl VkContext {
    /// Chooses the physical device and records what belongs to the context.
    /// `None` means that no listed device is suitable, which the caller cannot
    /// recover from.
    pub fn new(
        devices: &Vec<PhysicalDeviceInfo>,
        surface_khr: u64,
        debug_report_callback: Option<u64>,
    ) -> (context: Option<Self>)
        requires
            families_are_countable(devices@),
        ensures
            context is None <==> forall|d: int|
                0 <= d < devices@.len() ==> !suitable(#[trigger] devices@[d]),
            context matches Some(c) ==> {
                &&& c.surface_khr == surface_khr
                &&& c.debug_report_callback == debug_report_callback
                &&& exists|d: int|
                    0 <= d < devices@.len() && is_chosen(devices@, d, c.queue_family_indices)
                        && c.physical_device == (#[trigger] devices@[d]).handle
            },
    {
        match Self::pick_physical_device(devices) {
            Some((index, queue_family_indices)) => Some(
                VkContext {
                    queue_family_indices,
                    physical_device: devices[index].handle,
                    surface_khr,
                    debug_report_callback,
                },
            ),
            None => None,
        }
    }

    /// What to destroy when the context goes away, in order: the logical
    /// device, the surface, the debug messenger if there is one, and last the
    /// device connection. The debug messenger is forgotten by the call.
    pub fn free(&mut self) -> (teardown: Vec<Resource>)
        ensures
            teardown@ == context_teardown(*old(self)),
            final(self).debug_report_callback is None,
            final(self).queue_family_indices == old(self).queue_family_indices,
            final(self).physical_device == old(self).physical_device,
            final(self).surface_khr == old(self).surface_khr,
    {
        let mut teardown: Vec<Resource> = Vec::new();
        teardown.push(Resource::Device);
        teardown.push(Resource::Surface(self.surface_khr));
        if let Some(messenger) = self.debug_report_callback {
            teardown.push(Resource::DebugMessenger(messenger));
        }
        self.debug_report_callback = None;
        teardown.push(Resource::Instance);
        assert(teardown@ =~= context_teardown(*old(self)));
        teardown
    }

    /// The first suitable device, by position, with its resolved queue
    /// families; `None` exactly when no device is suitable.
    pub fn pick_physical_device(devices: &Vec<PhysicalDeviceInfo>) -> (picked: Option<
        (usize, QueueFamilyIndices),
    >)
        requires
            families_are_countable(devices@),
        ensures
            picked is None <==> forall|d: int|
                0 <= d < devices@.len() ==> !suitable(#[trigger] devices@[d]),
            picked matches Some((index, indices)) ==> is_chosen(devices@, index as int, indices),
    {
        let mut i: usize = 0;
        while i < devices.len()
            invariant
                i <= devices@.len(),
                families_are_countable(devices@),
                forall|d: int| 0 <= d < i ==> !suitable(#[trigger] devices@[d]),
            decreases devices@.len() - i,
        {
            if Self::is_device_suitable(&devices[i]) {
                let (graphics, present) = Self::find_queue_families(&devices[i].queue_families);
                match (graphics, present) {
                    (Some(graphics_index), Some(present_index)) => {
                        return Some((i, QueueFamilyIndices { graphics_index, present_index }));
                    },
                    _ => {
                        assert(false);
                    },
                }
            }
            i = i + 1;
        }
        None
    }

    /// Whether a device passes the suitability predicate, see [`suitable`].
    pub fn is_device_suitable(device: &PhysicalDeviceInfo) -> (ok: bool)
        requires
            device.queue_families@.len() <= u32::MAX,
        ensures
            ok == suitable(*device),
    {
        let (graphics, present) = Self::find_queue_families(&device.queue_families);
        let extension_support = Self::check_device_extension_support(&device.extensions);
        let is_swapchain_suitable = device.swapchain_support.formats.len() > 0
            && device.swapchain_support.present_modes.len() > 0;
        graphics.is_some() && present.is_some() && extension_support && is_swapchain_suitable
            && device.sampler_anisotropy == FEATURE_ENABLED
    }

    /// Whether every required device extension is among `available`.
    pub fn check_device_extension_support(available: &Vec<Vec<u8>>) -> (ok: bool)
        ensures
            ok == supports_required_extensions(names_of(available@)),
    {
        let required_extensions = Self::get_required_device_extensions();
        let mut i: usize = 0;
        while i < required_extensions.len()
            invariant
                i <= required_extensions@.len(),
                names_of(required_extensions@) == required_device_extensions(),
                forall|r: int|
                    0 <= r < i ==> names_of(available@).contains(
                        #[trigger] required_device_extensions()[r],
                    ),
            decreases required_extensions@.len() - i,
        {
            if !has_name(available, &required_extensions[i]) {
                assert(names_of(required_extensions@)[i as int] == required_extensions@[i as int]@);
                return false;
            }
            assert(names_of(required_extensions@)[i as int] == required_extensions@[i as int]@);
            i = i + 1;
        }
        true
    }

    /// The device extensions the renderer cannot do without: the one that
    /// provides presentable image chains.
    pub fn get_required_device_extensions() -> (names: Vec<Vec<u8>>)
        ensures
            names_of(names@) == required_device_extensions(),
    {
        let mut name: Vec<u8> = Vec::new();
        name.push(0x56);
        name.push(0x4b);
        name.push(0x5f);
        name.push(0x4b);
        name.push(0x48);
        name.push(0x52);
        name.push(0x5f);
        name.push(0x73);
        name.push(0x77);
        name.push(0x61);
        name.push(0x70);
        name.push(0x63);
        name.push(0x68);
        name.push(0x61);
        name.push(0x69);
        name.push(0x6e);
        assert(name@ =~= swapchain_extension_name());
        let mut names: Vec<Vec<u8>> = Vec::new();
        names.push(name);
        assert(names_of(names@) =~= required_device_extensions());
        names
    }

    /// Resolves the queue families of a device: the first family with queues
    /// that accepts graphics work, and the first with queues that can present.
    /// A family is named by its position.
    pub fn find_queue_families(families: &Vec<QueueFamily>) -> (found: (Option<u32>, Option<u32>))
        requires
            families@.len() <= u32::MAX,
        ensures
            resolved_families(families@, found.0, found.1),
    {
        let mut graphics: Option<u32> = None;
        let mut present: Option<u32> = None;
        let ghost for_graphics = |family: QueueFamily| accepts_graphics(family);
        let ghost for_present = |family: QueueFamily| accepts_present(family);
        let mut i: usize = 0;
        while i < families.len() && (graphics.is_none() || present.is_none())
            invariant
                i <= families@.len() <= u32::MAX,
                for_graphics == |family: QueueFamily| accepts_graphics(family),
                for_present == |family: QueueFamily| accepts_present(family),
                is_first_family_below(families@, for_graphics, graphics, i as int),
                is_first_family_below(families@, for_present, present, i as int),
            decreases families@.len() - i,
        {
            let family = families[i];
            if family.queue_count > 0 {
                if family.queue_flags & QUEUE_GRAPHICS == QUEUE_GRAPHICS && graphics.is_none() {
                    graphics = Some(i as u32);
                }
                if family.present_support && present.is_none() {
                    present = Some(i as u32);
                }
            }
            i = i + 1;
        }
        (graphics, present)
    }

    /// Describes the logical device for the resolved queue families: one
    /// single-queue entry per distinct family, the required extensions, and
    /// anisotropic sampling switched on.
    pub fn create_logical_device_with_graphics_queue(
        queue_family_indices: QueueFamilyIndices,
    ) -> (info: DeviceCreateInfo)
        ensures
            info.queue_create_infos@ == distinct_queue_infos(queue_family_indices),
            names_of(info.enabled_extension_names@) == required_device_extensions(),
            info.sampler_anisotropy,
    {
        let mut queue_create_infos: Vec<DeviceQueueCreateInfo> = Vec::new();
        queue_create_infos.push(
            DeviceQueueCreateInfo {
                queue_family_index: queue_family_indices.graphics_index,
                queue_count: 1,
            },
        );
        if queue_family_indices.present_index != queue_family_indices.graphics_index {
            queue_create_infos.push(
                DeviceQueueCreateInfo {
                    queue_family_index: queue_family_indices.present_index,
                    queue_count: 1,
                },
            );
        }
        assert(queue_create_infos@ =~= distinct_queue_infos(queue_family_indices));
        DeviceCreateInfo {
            queue_create_infos,
            enabled_extension_names: Self::get_required_device_extensions(),
            sampler_anisotropy: true,
        }
    }
}

/// Whether the device at `position` is the first suitable one and `indices`
/// are the queue families resolved for it.
pub open spec fn is_chosen(
    devices: Seq<PhysicalDeviceInfo>,
    position: int,
    indices: QueueFamilyIndices,
) -> bool {
    &&& 0 <= position < devices.len()
    &&& suitable(devices[position])
    &&& forall|d: int| 0 <= d < position ==> !suitable(#[trigger] devices[d])
    &&& resolved_families(
        devices[position].queue_families@,
        Some(indices.graphics_index),
        Some(indices.present_index),
    )
}

/// The queue entries of the logical device: the graphics family, and the
/// present family too where it is another one.
pub open spec fn distinct_queue_infos(indices: QueueFamilyIndices) -> Seq<DeviceQueueCreateInfo> {
    let graphics = DeviceQueueCreateInfo {
        queue_family_index: indices.graphics_index,
        queue_count: 1,
    };
    let present = DeviceQueueCreateInfo { queue_family_index: indices.present_index, queue_count: 1 };
    if indices.graphics_index == indices.present_index {
        seq![graphics]
    } else {
        seq![graphics, present]
    }
}

/// The teardown of a context: logical device, surface, debug messenger if
/// any, device connection.
pub open spec fn context_teardown(context: VkContext) -> Seq<Resource> {
    let head = seq![Resource::Device, Resource::Surface(context.surface_khr)];
    let middle = match context.debug_report_callback {
        Some(messenger) => seq![Resource::DebugMessenger(messenger)],
        None => Seq::<Resource>::empty(),
    };
    head + middle + seq![Resource::Instance]
}

} // verus!
