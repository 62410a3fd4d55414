use gpu_bootstrap::device::{plan_device, queue_requests, unique_queue_families, QueueRequest};
use gpu_bootstrap::error::BootstrapError;
use gpu_bootstrap::lifecycle::{Lifecycle, Resource};
use gpu_bootstrap::names::{contains_all, contains_name, copy_names};
use gpu_bootstrap::selector::{
    check_adapter, find_queue_families, pick_physical_device, Adapter, QueueFamily,
    QueueFamilyIndices, Selection,
};
use gpu_bootstrap::validation::{
    api_version, enabled_layers, instance_extensions, plan_instance, MessengerPlan,
    ValidationConfig, KHRONOS_VALIDATION_LAYER,
};

const GRAPHICS: u32 = 1;
const COMPUTE: u32 = 2;
const TRANSFER: u32 = 4;

fn strings(v: &[&str]) -> Vec<String> {
    v.iter().map(|s| s.to_string()).collect()
}

fn family(flags: u32, present: bool) -> QueueFamily {
    QueueFamily { flags, present }
}

fn adapter(families: Vec<QueueFamily>, extensions: &[&str]) -> Adapter {
    Adapter { queue_families: families, extensions: strings(extensions) }
}

fn good_adapter() -> Adapter {
    adapter(vec![family(GRAPHICS | COMPUTE, true)], &["VK_KHR_swapchain"])
}

#[test]
fn adapter_without_graphics_family_is_rejected() {
    let a = adapter(
        vec![family(COMPUTE | TRANSFER, true), family(TRANSFER, true)],
        &["VK_KHR_swapchain", "VK_KHR_maintenance1"],
    );
    assert_eq!(check_adapter(&a), None);
    assert_eq!(pick_physical_device(&vec![a]), Err(BootstrapError::NoSuitableDevice));
}

#[test]
fn adapter_without_present_support_is_rejected() {
    let a = adapter(
        vec![family(GRAPHICS, false), family(COMPUTE, false)],
        &["VK_KHR_swapchain"],
    );
    assert_eq!(check_adapter(&a), None);
    assert_eq!(pick_physical_device(&vec![a]), Err(BootstrapError::NoSuitableDevice));
}

#[test]
fn adapter_without_swapchain_is_rejected() {
    let a = adapter(vec![family(GRAPHICS, true)], &["VK_KHR_maintenance1"]);
    assert_eq!(check_adapter(&a), None);
    assert_eq!(pick_physical_device(&vec![a]), Err(BootstrapError::NoSuitableDevice));
}

#[test]
fn first_suitable_adapter_is_selected() {
    let adapters = vec![
        adapter(vec![family(COMPUTE, true)], &["VK_KHR_swapchain"]),
        adapter(vec![family(GRAPHICS, false)], &["VK_KHR_swapchain"]),
        adapter(vec![family(TRANSFER, false), family(GRAPHICS, true)], &["VK_KHR_swapchain"]),
        good_adapter(),
    ];
    assert_eq!(
        pick_physical_device(&adapters),
        Ok(Selection { index: 2, indices: QueueFamilyIndices { graphics: 1, present: 1 } })
    );
}

#[test]
fn no_adapters_means_no_suitable_device() {
    assert_eq!(pick_physical_device(&Vec::new()), Err(BootstrapError::NoSuitableDevice));
}

#[test]
fn queue_families_are_the_first_of_each_kind() {
    let fams = vec![
        family(TRANSFER, false),
        family(GRAPHICS, false),
        family(COMPUTE, true),
        family(GRAPHICS, true),
    ];
    assert_eq!(
        find_queue_families(&fams),
        Some(QueueFamilyIndices { graphics: 1, present: 2 })
    );
    assert_eq!(find_queue_families(&Vec::new()), None);
}

#[test]
fn disabled_validation_adds_no_layer_extension_or_messenger() {
    let platform = strings(&["VK_KHR_surface", "VK_KHR_xlib_surface"]);
    let plan = plan_instance(&platform, &ValidationConfig::Disabled);
    assert_eq!(plan.extensions, platform);
    assert!(plan.layers.is_empty());
    assert_eq!(plan.messenger, None);
    assert!(enabled_layers(&ValidationConfig::Disabled).is_empty());
}

#[test]
fn enabled_validation_adds_layer_extension_and_messenger() {
    let platform = strings(&["VK_KHR_surface", "VK_KHR_xlib_surface"]);
    let validation = ValidationConfig::khronos(0x1111, 0x7);
    let plan = plan_instance(&platform, &validation);
    assert_eq!(
        plan.extensions,
        strings(&["VK_KHR_surface", "VK_KHR_xlib_surface", "VK_EXT_debug_utils"])
    );
    assert_eq!(plan.layers, strings(&["VK_LAYER_KHRONOS_validation"]));
    assert_eq!(plan.messenger, Some(MessengerPlan { severity_mask: 0x1111, type_mask: 0x7 }));
    assert_eq!(KHRONOS_VALIDATION_LAYER, "VK_LAYER_KHRONOS_validation");
    assert!(validation.is_enabled());
    assert!(!ValidationConfig::Disabled.is_enabled());
}

#[test]
fn instance_extensions_with_custom_layer() {
    let validation = ValidationConfig::Enabled {
        layer: "VK_LAYER_LUNARG_api_dump".to_string(),
        severity_mask: 0x1000,
        type_mask: 0x1,
    };
    assert_eq!(
        instance_extensions(&Vec::new(), &validation),
        strings(&["VK_EXT_debug_utils"])
    );
    assert_eq!(enabled_layers(&validation), strings(&["VK_LAYER_LUNARG_api_dump"]));
}

#[test]
fn api_version_packs_fields() {
    assert_eq!(api_version(1, 0, 0), 4194304);
    assert_eq!(api_version(1, 2, 3), (1 << 22) | (2 << 12) | 3);
    assert_eq!(api_version(0, 0, 0), 0);
}

#[test]
fn shared_family_gets_a_single_queue_record() {
    let q = QueueFamilyIndices { graphics: 3, present: 3 };
    assert_eq!(unique_queue_families(&q), vec![3]);
    assert_eq!(queue_requests(&q), vec![QueueRequest { family: 3, count: 1 }]);
}

#[test]
fn distinct_families_get_one_record_each() {
    let q = QueueFamilyIndices { graphics: 0, present: 2 };
    assert_eq!(unique_queue_families(&q), vec![0, 2]);
    assert_eq!(
        queue_requests(&q),
        vec![QueueRequest { family: 0, count: 1 }, QueueRequest { family: 2, count: 1 }]
    );
}

#[test]
fn device_plan_requests_swapchain_and_instance_layer() {
    let q = QueueFamilyIndices { graphics: 0, present: 0 };
    let plan = plan_device(&q, &ValidationConfig::khronos(0x1000, 0x1));
    assert_eq!(plan.queues, vec![QueueRequest { family: 0, count: 1 }]);
    assert_eq!(plan.extensions, strings(&["VK_KHR_swapchain"]));
    assert_eq!(plan.layers, strings(&["VK_LAYER_KHRONOS_validation"]));
    let plain = plan_device(&q, &ValidationConfig::Disabled);
    assert!(plain.layers.is_empty());
}

fn full_cycle(validation: bool) -> (Vec<Resource>, Vec<Resource>) {
    let mut l = Lifecycle::new(validation);
    let mut created = Vec::new();
    while let Some(next) = l.next_to_create() {
        created.push(next);
        l.record_created(next);
    }
    assert!(l.is_complete());
    let order = l.teardown();
    assert!(!l.is_live(Resource::Instance));
    (created, order)
}

#[test]
fn teardown_order_with_validation() {
    let (created, order) = full_cycle(true);
    assert_eq!(
        created,
        vec![Resource::Instance, Resource::Messenger, Resource::Surface, Resource::Device]
    );
    assert_eq!(
        order,
        vec![Resource::Device, Resource::Messenger, Resource::Surface, Resource::Instance]
    );
    let messenger = order.iter().position(|r| *r == Resource::Messenger).unwrap();
    let instance = order.iter().position(|r| *r == Resource::Instance).unwrap();
    assert!(messenger < instance);
}

#[test]
fn teardown_order_without_validation() {
    let (created, order) = full_cycle(false);
    assert_eq!(created, vec![Resource::Instance, Resource::Surface, Resource::Device]);
    assert_eq!(order, vec![Resource::Device, Resource::Surface, Resource::Instance]);
    assert!(!order.contains(&Resource::Messenger));
}

#[test]
fn partial_teardown_destroys_only_what_exists() {
    let mut l = Lifecycle::new(true);
    l.record_created(Resource::Instance);
    l.record_created(Resource::Messenger);
    assert!(!l.is_complete());
    assert_eq!(l.next_to_create(), Some(Resource::Surface));
    assert_eq!(l.teardown(), vec![Resource::Messenger, Resource::Instance]);
    assert_eq!(l.teardown(), Vec::<Resource>::new());
    assert!(l.validation_enabled());
}

#[test]
fn name_lists() {
    let v = strings(&["a", "bc"]);
    assert_eq!(copy_names(&v), v);
    assert!(contains_name(&v, &"bc".to_string()));
    assert!(!contains_name(&v, &"b".to_string()));
    assert!(contains_all(&v, &strings(&["bc", "a"])));
    assert!(!contains_all(&v, &strings(&["a", "d"])));
    assert!(contains_all(&v, &Vec::new()));
}

#[test]
fn error_messages() {
    assert_eq!(BootstrapError::Initialization.message(), "failed to initialize the graphics API");
    assert_eq!(BootstrapError::Enumeration.message(), "failed to enumerate physical devices");
    assert_eq!(BootstrapError::NoSuitableDevice.message(), "no suitable physical device found");
    assert_eq!(BootstrapError::DeviceCreation.message(), "failed to create the logical device");
}
