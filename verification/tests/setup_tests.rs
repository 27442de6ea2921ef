use rustcraft::constants::{
    DEVICE_TYPE_CPU, DEVICE_TYPE_DISCRETE_GPU, DEVICE_TYPE_INTEGRATED_GPU, DEVICE_TYPE_OTHER,
    DEVICE_TYPE_VIRTUAL_GPU,
};
use rustcraft::lifecycle::{DestroyCommand, ResourceKind};
use rustcraft::setup::{
    ApiVersion, ConfigurationError, InstanceCreateInfo, PhysicalDevice, QueueFamily, QueueFamilyReport, Setup,
    ValidationInfo,
};
use rustcraft::surface::QueueFamilyIndices;

fn family(queue_count: u32, queue_flags: u32, present_support: bool) -> QueueFamily {
    QueueFamily { queue_count, queue_flags, present_support }
}

fn device(handle: u64, device_type: i32, queue_families: Vec<QueueFamily>) -> PhysicalDevice {
    PhysicalDevice {
        handle,
        device_id: 7,
        device_type,
        api_version: 4202588,
        geometry_shader: true,
        queue_families,
    }
}

#[test]
fn one_family_can_serve_for_drawing_and_presenting() {
    let found = Setup::find_queue_family(&vec![family(1, 0b1111, true), family(4, 0b0001, true)]);
    assert_eq!(found, QueueFamilyIndices { graphics_family: Some(0), present_family: Some(0) });
}

#[test]
fn families_are_looked_for_until_both_are_found() {
    let families = vec![family(1, 0b0001, false), family(2, 0b0011, false), family(1, 0b0100, true), family(
        1,
        0b0001,
        true,
    )];
    let found = Setup::find_queue_family(&families);
    assert_eq!(found, QueueFamilyIndices { graphics_family: Some(1), present_family: Some(2) });
}

#[test]
fn family_without_the_graphics_bit_does_not_draw() {
    let found = Setup::find_queue_family(&vec![family(1, 0b1110, false), family(1, 0b0110, false)]);
    assert_eq!(found, QueueFamilyIndices { graphics_family: None, present_family: None });
    let found = Setup::find_queue_family(&vec![family(1, 0b1110, true)]);
    assert_eq!(found, QueueFamilyIndices { graphics_family: None, present_family: Some(0) });
}

#[test]
fn family_without_queues_is_passed_over() {
    let found = Setup::find_queue_family(&vec![family(0, 0b0001, true), family(1, 0b0001, false)]);
    assert_eq!(found, QueueFamilyIndices { graphics_family: Some(1), present_family: None });
    assert_eq!(Setup::find_queue_family(&Vec::new()), QueueFamilyIndices::new());
}

#[test]
fn device_is_suitable_with_both_families() {
    assert!(Setup::is_physical_device_suitable(&device(1, 2, vec![family(1, 1, false), family(1, 0, true)])));
    assert!(!Setup::is_physical_device_suitable(&device(1, 2, vec![family(1, 1, false)])));
    assert!(!Setup::is_physical_device_suitable(&device(1, 2, vec![family(1, 2, true)])));
    assert!(!Setup::is_physical_device_suitable(&device(1, 2, Vec::new())));
}

#[test]
fn first_suitable_device_is_picked() {
    let devices = vec![
        device(10, 4, vec![family(1, 2, true)]),
        device(11, 2, vec![family(1, 1, true)]),
        device(12, 1, vec![family(1, 1, true)]),
    ];
    assert_eq!(Setup::pick_physical_device(&devices), Ok(1));
}

#[test]
fn no_suitable_device_is_a_configuration_error() {
    let devices = vec![device(10, 4, vec![family(1, 2, true)]), device(11, 2, Vec::new())];
    assert_eq!(Setup::pick_physical_device(&devices), Err(ConfigurationError::NoSuitableDevice));
    assert_eq!(Setup::pick_physical_device(&Vec::new()), Err(ConfigurationError::NoSuitableDevice));
}

#[test]
fn version_is_taken_apart() {
    assert_eq!(ApiVersion::unpack(4202588), ApiVersion { major: 1, minor: 2, patch: 92 });
    assert_eq!(ApiVersion::unpack(4194304), ApiVersion { major: 1, minor: 0, patch: 0 });
    assert_eq!(ApiVersion::unpack(0), ApiVersion { major: 0, minor: 0, patch: 0 });
    assert_eq!(ApiVersion::unpack(u32::MAX), ApiVersion { major: 1023, minor: 1023, patch: 4095 });
}

#[test]
fn version_is_packed() {
    assert_eq!(ApiVersion { major: 1, minor: 2, patch: 92 }.pack(), 4202588);
    assert_eq!(ApiVersion { major: 1, minor: 0, patch: 0 }.pack(), 4194304);
    assert_eq!(ApiVersion { major: 0, minor: 1, patch: 0 }.pack(), 4096);
    assert_eq!(ApiVersion { major: 0, minor: 0, patch: 1 }.pack(), 1);
}

#[test]
fn packed_version_comes_apart_as_it_was() {
    for &(major, minor, patch) in [(0u32, 0u32, 0u32), (1, 2, 92), (1023, 1023, 4095), (3, 0, 4095)].iter() {
        let version = ApiVersion { major, minor, patch };
        assert_eq!(ApiVersion::unpack(version.pack()), version);
    }
}

#[test]
fn packed_version_agrees_with_the_binding() {
    assert_eq!(ApiVersion { major: 1, minor: 2, patch: 92 }.pack(), ash::vk::make_version(1, 2, 92));
    assert_eq!(ApiVersion::unpack(4202588).minor, ash::vk::version_minor(4202588));
}

#[test]
fn device_is_described_for_display() {
    let report = Setup::describe_physical_device(&device(1, DEVICE_TYPE_DISCRETE_GPU, vec![
        family(16, 0b1111, true),
        family(2, 0b0100, false),
        family(8, 0b0010, false),
    ]));
    assert_eq!(report.device_id, 7);
    assert_eq!(report.device_type, "Discrete GPU");
    assert_eq!(report.api_version, ApiVersion { major: 1, minor: 2, patch: 92 });
    assert!(report.geometry_shader);
    assert_eq!(
        report.queue_families,
        vec![
            QueueFamilyReport { queue_count: 16, graphics: true, compute: true, transfer: true, sparse_binding: true },
            QueueFamilyReport {
                queue_count: 2,
                graphics: false,
                compute: false,
                transfer: true,
                sparse_binding: false,
            },
            QueueFamilyReport {
                queue_count: 8,
                graphics: false,
                compute: true,
                transfer: false,
                sparse_binding: false,
            },
        ]
    );
}

#[test]
fn device_types_have_their_names() {
    assert_eq!(Setup::describe_physical_device(&device(1, DEVICE_TYPE_CPU, Vec::new())).device_type, "Cpu");
    assert_eq!(
        Setup::describe_physical_device(&device(1, DEVICE_TYPE_INTEGRATED_GPU, Vec::new())).device_type,
        "Integrated GPU"
    );
    assert_eq!(
        Setup::describe_physical_device(&device(1, DEVICE_TYPE_VIRTUAL_GPU, Vec::new())).device_type,
        "Virtual GPU"
    );
    assert_eq!(Setup::describe_physical_device(&device(1, DEVICE_TYPE_OTHER, Vec::new())).device_type, "Unknown");
}

#[test]
fn instance_is_described_with_validation() {
    let one = ApiVersion { major: 1, minor: 0, patch: 0 };
    let api = ApiVersion { major: 1, minor: 2, patch: 92 };
    assert_eq!(
        Setup::create_instance(&ValidationInfo { is_enable: true }, true, one, one, api),
        Ok(InstanceCreateInfo {
            application_version: 4194304,
            engine_version: 4194304,
            api_version: 4202588,
            enable_validation_layers: true,
            chain_debug_messenger: true,
        })
    );
    assert_eq!(
        Setup::create_instance(&ValidationInfo { is_enable: false }, false, one, one, api),
        Ok(InstanceCreateInfo {
            application_version: 4194304,
            engine_version: 4194304,
            api_version: 4202588,
            enable_validation_layers: false,
            chain_debug_messenger: false,
        })
    );
}

#[test]
fn missing_validation_layers_are_a_configuration_error() {
    let one = ApiVersion { major: 1, minor: 0, patch: 0 };
    assert_eq!(
        Setup::create_instance(&ValidationInfo { is_enable: true }, false, one, one, one),
        Err(ConfigurationError::ValidationLayersMissing)
    );
}

#[test]
fn logical_device_gets_one_queue_per_distinct_family() {
    let validation = ValidationInfo { is_enable: true };
    let same = QueueFamilyIndices { graphics_family: Some(2), present_family: Some(2) };
    let info = Setup::create_logical_device(&same, &validation);
    assert_eq!(info.queue_families, vec![2]);
    assert_eq!(info.queues_per_family, 1);
    assert!(info.enable_validation_layers);
    let apart = QueueFamilyIndices { graphics_family: Some(0), present_family: Some(3) };
    let info = Setup::create_logical_device(&apart, &ValidationInfo { is_enable: false });
    let mut families = info.queue_families.clone();
    families.sort();
    assert_eq!(families, vec![0, 3]);
    assert_eq!(info.queues_per_family, 1);
    assert!(!info.enable_validation_layers);
    let swapped = QueueFamilyIndices { graphics_family: Some(3), present_family: Some(0) };
    let mut families = Setup::create_logical_device(&swapped, &validation).queue_families;
    families.sort();
    assert_eq!(families, vec![0, 3]);
}

#[test]
fn context_needs_both_queue_families() {
    let both = QueueFamilyIndices { graphics_family: Some(0), present_family: Some(1) };
    let setup = Setup::new(1, 2, 3, 4, 5, 6, 7, both).expect("both families");
    assert_eq!(setup.instance, 1);
    assert_eq!(setup.surface, 2);
    assert_eq!(setup.debug_messenger, 3);
    assert_eq!(setup.physical_device, 4);
    assert_eq!(setup.device, 5);
    assert_eq!(setup.graphics_queue, 6);
    assert_eq!(setup.present_queue, 7);
    assert_eq!(setup.queue_family_indices, both);
    let no_present = QueueFamilyIndices { graphics_family: Some(0), present_family: None };
    assert_eq!(Setup::new(1, 2, 3, 4, 5, 6, 7, no_present), None);
    assert_eq!(Setup::new(1, 2, 3, 4, 5, 6, 7, QueueFamilyIndices::new()), None);
}

#[test]
fn context_is_released_device_first_and_instance_last() {
    let both = QueueFamilyIndices { graphics_family: Some(0), present_family: Some(0) };
    let setup = Setup::new(1, 2, 3, 4, 5, 6, 7, both).expect("both families");
    let destroy = |kind, handle| DestroyCommand { kind, handle };
    assert_eq!(
        setup.destroy(&ValidationInfo { is_enable: true }),
        vec![
            destroy(ResourceKind::Device, 5),
            destroy(ResourceKind::Surface, 2),
            destroy(ResourceKind::DebugMessenger, 3),
            destroy(ResourceKind::Instance, 1),
        ]
    );
    assert_eq!(
        setup.destroy(&ValidationInfo { is_enable: false }),
        vec![
            destroy(ResourceKind::Device, 5),
            destroy(ResourceKind::Surface, 2),
            destroy(ResourceKind::Instance, 1),
        ]
    );
}
