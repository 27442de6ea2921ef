//! Choosing the physical device and its queue families, and describing the
//! instance and the logical device to create.

use vstd::prelude::*;
use vstd::std_specs::hash::spec_hash_keys_iter;
use vstd::std_specs::iter::IteratorSpec;
use std::collections::HashSet;
use crate::constants::{
    DEVICE_TYPE_CPU, DEVICE_TYPE_DISCRETE_GPU, DEVICE_TYPE_INTEGRATED_GPU, DEVICE_TYPE_OTHER,
    DEVICE_TYPE_VIRTUAL_GPU, QUEUE_COMPUTE, QUEUE_GRAPHICS, QUEUE_SPARSE_BINDING, QUEUE_TRANSFER,
};
use crate::lifecycle::{context_commands, DestroyCommand, ResourceKind};
use crate::native::{make_version, queue_flags_contain, version_major, version_minor, version_patch};
use crate::surface::QueueFamilyIndices;

verus! {

/// A queue family of a physical device, with whether it can present to the
/// surface in use.
#[derive(Clone, Copy, Debug, PartialEq, Eq, Structural)]
pub struct QueueFamily {
    pub queue_count: u32,
    pub queue_flags: u32,
    pub present_support: bool,
}

/// What is known of a physical device.
#[derive(Clone, Debug, PartialEq, Eq)]
pub struct PhysicalDevice {
    pub handle: u64,
    pub device_id: u32,
    pub device_type: i32,
    pub api_version: u32,
    pub geometry_shader: bool,
    pub queue_families: Vec<QueueFamily>,
}

/// A version in three parts.
#[derive(Clone, Copy, Debug, PartialEq, Eq, Structural)]
pub struct ApiVersion {
    pub major: u32,
    pub minor: u32,
    pub patch: u32,
}

/// What a queue family can do, for display.
#[derive(Clone, Copy, Debug, PartialEq, Eq, Structural)]
pub struct QueueFamilyReport {
    pub queue_count: u32,
    pub graphics: bool,
    pub compute: bool,
    pub transfer: bool,
    pub sparse_binding: bool,
}

/// What is shown of a physical device while devices are examined.
#[derive(Clone, Debug, PartialEq, Eq)]
pub struct DeviceReport {
    pub device_id: u32,
    pub device_type: &'static str,
    pub api_version: ApiVersion,
    pub queue_families: Vec<QueueFamilyReport>,
    pub geometry_shader: bool,
}

/// Why no rendering context can be set up.
#[derive(Clone, Copy, Debug, PartialEq, Eq, Structural)]
pub enum ConfigurationError {
    /// No physical device has both a graphics and a present queue family.
    NoSuitableDevice,
    /// Validation is asked for and its layers are not installed.
    ValidationLayersMissing,
}

/// Whether validation is asked for.
#[derive(Clone, Copy, Debug, PartialEq, Eq, Structural)]
pub struct ValidationInfo {
    pub is_enable: bool,
}

/// The arguments of the instance creation that depend on a decision.
#[derive(Clone, Copy, Debug, PartialEq, Eq, Structural)]
pub struct InstanceCreateInfo {
    pub application_version: u32,
    pub engine_version: u32,
    pub api_version: u32,
    /// The validation layers are enabled.
    pub enable_validation_layers: bool,
    /// The debug messenger's description is chained to the creation.
    pub chain_debug_messenger: bool,
}

/// The arguments of the logical device creation that depend on a decision.
#[derive(Clone, Debug, PartialEq, Eq)]
pub struct DeviceCreateInfo {
    /// The families to create one queue in, each once.
    pub queue_families: Vec<u32>,
    pub queues_per_family: u32,
    pub enable_validation_layers: bool,
}

/// The handles of a rendering context that is set up.
#[derive(Clone, Copy, Debug, PartialEq, Eq, Structural)]
pub struct Setup {
    pub instance: u64,
    pub surface: u64,
    pub debug_messenger: u64,
    pub physical_device: u64,
    pub device: u64,
    pub graphics_queue: u64,
    pub present_queue: u64,
    pub queue_family_indices: QueueFamilyIndices,
}

/// What is said when setting up stops on `error`.
pub open spec fn configuration_message(error: ConfigurationError) -> Seq<char> {
    match error {
        ConfigurationError::NoSuitableDevice => "Failed to find a suitable GPU!"@,
        ConfigurationError::ValidationLayersMissing => "Validation layers not found"@,
    }
}

impl ConfigurationError {
    /// What to say when setting up stops on this error.
    pub fn message(&self) -> (r: &'static str)
        ensures
            r@ == configuration_message(*self),
    {
        match self {
            ConfigurationError::NoSuitableDevice => "Failed to find a suitable GPU!",
            ConfigurationError::ValidationLayersMissing => "Validation layers not found",
        }
    }
}

/// `family` has a queue that draws.
pub open spec fn supports_graphics(family: QueueFamily) -> bool {
    family.queue_count > 0 && family.queue_flags & QUEUE_GRAPHICS == QUEUE_GRAPHICS
}

/// `family` has a queue that presents.
pub open spec fn supports_present(family: QueueFamily) -> bool {
    family.queue_count > 0 && family.present_support
}

/// The families found among the first `n` of `families`: for drawing and
/// for presenting the last family seen that can do it, where looking stops
/// as soon as both are found.
pub open spec fn families_among(families: Seq<QueueFamily>, n: nat) -> QueueFamilyIndices
    decreases n,
{
    if n == 0 {
        QueueFamilyIndices { graphics_family: None, present_family: None }
    } else {
        let before = families_among(families, (n - 1) as nat);
        let family = families[n - 1];
        if before.complete() {
            before
        } else {
            QueueFamilyIndices {
                graphics_family: if supports_graphics(family) {
                    Some((n - 1) as u32)
                } else {
                    before.graphics_family
                },
                present_family: if supports_present(family) {
                    Some((n - 1) as u32)
                } else {
                    before.present_family
                },
            }
        }
    }
}

/// The families found among all of `families`.
pub open spec fn found_families(families: Seq<QueueFamily>) -> QueueFamilyIndices {
    families_among(families, families.len())
}

/// A device is suitable when it has a family for drawing and one for
/// presenting.
pub open spec fn suitable(device: PhysicalDevice) -> bool {
    found_families(device.queue_families@).complete()
}

/// A version packed into one word.
pub open spec fn packed_version(version: ApiVersion) -> u32 {
    (version.major << 22u32) | (version.minor << 12u32) | version.patch
}

/// The three parts of a packed version.
pub open spec fn unpacked_version(version: u32) -> ApiVersion {
    ApiVersion {
        major: version >> 22u32,
        minor: (version >> 12u32) & 0x3ff,
        patch: version & 0xfff,
    }
}

/// The name a device type is shown under.
pub open spec fn device_type_name(device_type: i32) -> Seq<char> {
    if device_type == DEVICE_TYPE_CPU {
        "Cpu"@
    } else if device_type == DEVICE_TYPE_INTEGRATED_GPU {
        "Integrated GPU"@
    } else if device_type == DEVICE_TYPE_DISCRETE_GPU {
        "Discrete GPU"@
    } else if device_type == DEVICE_TYPE_VIRTUAL_GPU {
        "Virtual GPU"@
    } else {
        "Unknown"@
    }
}

/// What is shown of `family`.
pub open spec fn family_report(family: QueueFamily) -> QueueFamilyReport {
    QueueFamilyReport {
        queue_count: family.queue_count,
        graphics: family.queue_flags & QUEUE_GRAPHICS == QUEUE_GRAPHICS,
        compute: family.queue_flags & QUEUE_COMPUTE == QUEUE_COMPUTE,
        transfer: family.queue_flags & QUEUE_TRANSFER == QUEUE_TRANSFER,
        sparse_binding: family.queue_flags & QUEUE_SPARSE_BINDING == QUEUE_SPARSE_BINDING,
    }
}

/// The families a logical device creates queues in: the graphics family
/// and the present family.
pub open spec fn unique_families(indices: QueueFamilyIndices) -> Set<u32> {
    set![indices.graphics_family->0, indices.present_family->0]
}

/// Once both families are found, looking further changes nothing.
proof fn lemma_families_settle(families: Seq<QueueFamily>, n: nat, m: nat)
    requires
        n <= m,
        families_among(families, n).complete(),
    ensures
        families_among(families, m) == families_among(families, n),
    decreases m,
{
    if n < m {
        lemma_families_settle(families, n, (m - 1) as nat);
    }
}

/// The families found are families that can do what they were found for,
/// and a capability is missed only when no family seen has it.
pub proof fn lemma_families_among_sound(families: Seq<QueueFamily>, n: nat)
    requires
        n <= families.len() <= u32::MAX,
    ensures
        ({
            let found = families_among(families, n);
            &&& found.graphics_family matches Some(g) ==> g < n && supports_graphics(families[g as int])
            &&& found.present_family matches Some(p) ==> p < n && supports_present(families[p as int])
            &&& found.graphics_family is None ==> forall|i: int|
                0 <= i < n ==> !supports_graphics(#[trigger] families[i])
            &&& found.present_family is None ==> forall|i: int|
                0 <= i < n ==> !supports_present(#[trigger] families[i])
        }),
    decreases n,
{
    if n > 0 {
        lemma_families_among_sound(families, (n - 1) as nat);
    }
}

/// A device is suitable exactly when one of its queue families can draw
/// and one can present.
pub proof fn lemma_suitable_iff_capable(device: PhysicalDevice)
    requires
        device.queue_families@.len() <= u32::MAX,
    ensures
        suitable(device) <==> {
            &&& exists|i: int|
                0 <= i < device.queue_families@.len() && supports_graphics(
                    #[trigger] device.queue_families@[i],
                )
            &&& exists|j: int|
                0 <= j < device.queue_families@.len() && supports_present(
                    #[trigger] device.queue_families@[j],
                )
        },
{
    let families = device.queue_families@;
    lemma_families_among_sound(families, families.len());
    let found = found_families(families);
    if found.complete() {
        assert(supports_graphics(families[found.graphics_family->0 as int]));
        assert(supports_present(families[found.present_family->0 as int]));
    }
}

/// Packing a version whose parts fit their bit fields and unpacking it
/// again gives the version back.
pub proof fn lemma_version_round_trip(version: ApiVersion)
    requires
        version.major < 0x400,
        version.minor < 0x400,
        version.patch < 0x1000,
    ensures
        unpacked_version(packed_version(version)) == version,
{
    let major = version.major;
    let minor = version.minor;
    let patch = version.patch;
    assert(major < 0x400 && minor < 0x400 && patch < 0x1000 ==> (((major << 22u32) | (minor << 12u32)
        | patch) >> 22u32) == major) by (bit_vector);
    assert(major < 0x400 && minor < 0x400 && patch < 0x1000 ==> ((((major << 22u32) | (minor << 12u32)
        | patch) >> 12u32) & 0x3ff) == minor) by (bit_vector);
    assert(major < 0x400 && minor < 0x400 && patch < 0x1000 ==> (((major << 22u32) | (minor << 12u32)
        | patch) & 0xfff) == patch) by (bit_vector);
}

impl ApiVersion {
    /// Packs the version into one word.
    pub fn pack(&self) -> (r: u32)
        ensures
            r == packed_version(*self),
    {
        make_version(self.major, self.minor, self.patch)
    }

    /// Takes a packed version apart.
    pub fn unpack(version: u32) -> (r: ApiVersion)
        ensures
            r == unpacked_version(version),
    {
        ApiVersion {
            major: version_major(version),
            minor: version_minor(version),
            patch: version_patch(version),
        }
    }
}

impl Setup {
    /// A context has a queue family to draw with and one to present with.
    pub open spec fn well_formed(self) -> bool {
        self.queue_family_indices.complete()
    }

    /// Puts the handles of a context together. Returns `None` exactly when
    /// one of the two queue families is missing.
    pub fn new(
        instance: u64,
        surface: u64,
        debug_messenger: u64,
        physical_device: u64,
        device: u64,
        graphics_queue: u64,
        present_queue: u64,
        queue_family_indices: QueueFamilyIndices,
    ) -> (r: Option<Setup>)
        ensures
            r == if queue_family_indices.complete() {
                Some(
                    Setup {
                        instance,
                        surface,
                        debug_messenger,
                        physical_device,
                        device,
                        graphics_queue,
                        present_queue,
                        queue_family_indices,
                    },
                )
            } else {
                None
            },
    {
        if !queue_family_indices.is_complete() {
            return None;
        }
        Some(
            Setup {
                instance,
                surface,
                debug_messenger,
                physical_device,
                device,
                graphics_queue,
                present_queue,
                queue_family_indices,
            },
        )
    }

    /// The native release calls that take the context down, in order:
    /// device, surface, the debug messenger where validation is in use,
    /// instance.
    pub fn destroy(&self, validation: &ValidationInfo) -> (r: Vec<DestroyCommand>)
        ensures
            r@ == context_commands(*self, *validation),
    {
        let mut commands: Vec<DestroyCommand> = Vec::new();
        commands.push(DestroyCommand { kind: ResourceKind::Device, handle: self.device });
        commands.push(DestroyCommand { kind: ResourceKind::Surface, handle: self.surface });
        if validation.is_enable {
            commands.push(DestroyCommand { kind: ResourceKind::DebugMessenger, handle: self.debug_messenger });
        }
        commands.push(DestroyCommand { kind: ResourceKind::Instance, handle: self.instance });
        assert(commands@ =~= context_commands(*self, *validation));
        commands
    }

    /// Finds the queue families of a device to draw and to present with.
    pub fn find_queue_family(queue_families: &Vec<QueueFamily>) -> (r: QueueFamilyIndices)
        requires
            queue_families@.len() <= u32::MAX,
        ensures
            r == found_families(queue_families@),
    {
        let mut indices = QueueFamilyIndices::new();
        let mut i: usize = 0;
        while i < queue_families.len()
            invariant_except_break
                !indices.complete(),
            invariant
                i <= queue_families@.len() <= u32::MAX,
                indices == families_among(queue_families@, i as nat),
            ensures
                indices == found_families(queue_families@),
            decreases queue_families@.len() - i,
        {
            let family = queue_families[i];
            if family.queue_count > 0 && queue_flags_contain(family.queue_flags, QUEUE_GRAPHICS) {
                indices.graphics_family = Some(i as u32);
            }
            if family.queue_count > 0 && family.present_support {
                indices.present_family = Some(i as u32);
            }
            i = i + 1;
            if indices.is_complete() {
                proof {
                    lemma_families_settle(queue_families@, i as nat, queue_families@.len());
                }
                break ;
            }
        }
        indices
    }

    /// Whether a device can be used: it needs a family to draw with and
    /// one to present with.
    pub fn is_physical_device_suitable(device: &PhysicalDevice) -> (r: bool)
        requires
            device.queue_families@.len() <= u32::MAX,
        ensures
            r == suitable(*device),
    {
        Setup::find_queue_family(&device.queue_families).is_complete()
    }

    /// What is shown of a device while devices are examined.
    pub fn describe_physical_device(device: &PhysicalDevice) -> (r: DeviceReport)
        requires
            DEVICE_TYPE_OTHER <= device.device_type <= DEVICE_TYPE_CPU,
        ensures
            r.device_id == device.device_id,
            r.device_type@ == device_type_name(device.device_type),
            r.api_version == unpacked_version(device.api_version),
            r.geometry_shader == device.geometry_shader,
            r.queue_families@.len() == device.queue_families@.len(),
            forall|i: int|
                0 <= i < device.queue_families@.len() ==> r.queue_families@[i] == family_report(
                    device.queue_families@[i],
                ),
    {
        let device_type = if device.device_type == DEVICE_TYPE_CPU {
            "Cpu"
        } else if device.device_type == DEVICE_TYPE_INTEGRATED_GPU {
            "Integrated GPU"
        } else if device.device_type == DEVICE_TYPE_DISCRETE_GPU {
            "Discrete GPU"
        } else if device.device_type == DEVICE_TYPE_VIRTUAL_GPU {
            "Virtual GPU"
        } else {
            "Unknown"
        };
        let mut queue_families: Vec<QueueFamilyReport> = Vec::new();
        let mut i: usize = 0;
        while i < device.queue_families.len()
            invariant
                i <= device.queue_families@.len(),
                queue_families@.len() == i,
                forall|j: int|
                    0 <= j < i ==> queue_families@[j] == family_report(device.queue_families@[j]),
            decreases device.queue_families@.len() - i,
        {
            let family = device.queue_families[i];
            queue_families.push(
                QueueFamilyReport {
                    queue_count: family.queue_count,
                    graphics: queue_flags_contain(family.queue_flags, QUEUE_GRAPHICS),
                    compute: queue_flags_contain(family.queue_flags, QUEUE_COMPUTE),
                    transfer: queue_flags_contain(family.queue_flags, QUEUE_TRANSFER),
                    sparse_binding: queue_flags_contain(family.queue_flags, QUEUE_SPARSE_BINDING),
                },
            );
            i = i + 1;
        }
        DeviceReport {
            device_id: device.device_id,
            device_type,
            api_version: ApiVersion::unpack(device.api_version),
            queue_families,
            geometry_shader: device.geometry_shader,
        }
    }

    /// Picks the first suitable device. Fails with `NoSuitableDevice`
    /// exactly when no device is suitable.
    pub fn pick_physical_device(devices: &Vec<PhysicalDevice>) -> (r: Result<usize, ConfigurationError>)
        requires
            forall|i: int| 0 <= i < devices@.len() ==> (#[trigger] devices@[i]).queue_families@.len() <= u32::MAX,
        ensures
            match r {
                Ok(index) => {
                    &&& index < devices@.len()
                    &&& suitable(devices@[index as int])
                    &&& forall|j: int| 0 <= j < index ==> !suitable(#[trigger] devices@[j])
                },
                Err(error) => {
                    &&& error == ConfigurationError::NoSuitableDevice
                    &&& forall|j: int| 0 <= j < devices@.len() ==> !suitable(#[trigger] devices@[j])
                },
            },
    {
        let mut i: usize = 0;
        while i < devices.len()
            invariant
                i <= devices@.len(),
                forall|k: int|
                    0 <= k < devices@.len() ==> (#[trigger] devices@[k]).queue_families@.len() <= u32::MAX,
                forall|j: int| 0 <= j < i ==> !suitable(#[trigger] devices@[j]),
            decreases devices@.len() - i,
        {
            if Setup::is_physical_device_suitable(&devices[i]) {
                return Ok(i);
            }
            i = i + 1;
        }
        Err(ConfigurationError::NoSuitableDevice)
    }

    /// Describes the instance to create. Fails with
    /// `ValidationLayersMissing` exactly when validation is asked for and
    /// its layers are not supported.
    pub fn create_instance(
        validation: &ValidationInfo,
        validation_layers_supported: bool,
        application_version: ApiVersion,
        engine_version: ApiVersion,
        api_version: ApiVersion,
    ) -> (r: Result<InstanceCreateInfo, ConfigurationError>)
        ensures
            r == if validation.is_enable && !validation_layers_supported {
                Err::<InstanceCreateInfo, ConfigurationError>(ConfigurationError::ValidationLayersMissing)
            } else {
                Ok(
                    InstanceCreateInfo {
                        application_version: packed_version(application_version),
                        engine_version: packed_version(engine_version),
                        api_version: packed_version(api_version),
                        enable_validation_layers: validation.is_enable,
                        chain_debug_messenger: validation.is_enable,
                    },
                )
            },
    {
        if validation.is_enable && !validation_layers_supported {
            return Err(ConfigurationError::ValidationLayersMissing);
        }
        Ok(
            InstanceCreateInfo {
                application_version: application_version.pack(),
                engine_version: engine_version.pack(),
                api_version: api_version.pack(),
                enable_validation_layers: validation.is_enable,
                chain_debug_messenger: validation.is_enable,
            },
        )
    }

    /// Describes the logical device to create: one queue in the graphics
    /// family and, where it is another family, one in the present family.
    /// The order of the families is left open.
    pub fn create_logical_device(indices: &QueueFamilyIndices, validation: &ValidationInfo) -> (r:
        DeviceCreateInfo)
        requires
            indices.complete(),
        ensures
            r.queue_families@.to_set() == unique_families(*indices),
            r.queue_families@.no_duplicates(),
            r.queues_per_family == 1,
            r.enable_validation_layers == validation.is_enable,
    {
        broadcast use vstd::std_specs::hash::group_hash_axioms;

        let mut unique_queue_families: HashSet<u32> = HashSet::new();
        match (indices.graphics_family, indices.present_family) {
            (Some(graphics), Some(present)) => {
                unique_queue_families.insert(graphics);
                unique_queue_families.insert(present);
            },
            _ => {},
        }
        assert(unique_queue_families@ =~= unique_families(*indices));
        let ghost keys = spec_hash_keys_iter(&unique_queue_families).remaining();
        let mut queue_families: Vec<u32> = Vec::new();
        for queue_family in iter: unique_queue_families.iter()
            invariant
                iter.seq() == keys,
                queue_families@.len() == iter.index(),
                forall|j: int| 0 <= j < queue_families@.len() ==> queue_families@[j] == *keys[j],
        {
            queue_families.push(*queue_family);
        }
        assert(queue_families@ =~= keys.unref());
        DeviceCreateInfo {
            queue_families,
            queues_per_family: 1,
            enable_validation_layers: validation.is_enable,
        }
    }
}

} // verus!
