use lantir::device::{
    check_required_extensions, check_required_features, find_universal_queue_family, get_required_device_extensions,
    select_physical_device, DeviceFeatureSupport, PhysicalDeviceInfo, QueueFamilyInfo,
};

fn all_features() -> DeviceFeatureSupport {
    DeviceFeatureSupport {
        sampler_anisotropy: true,
        buffer_device_address: true,
        descriptor_indexing: true,
        dynamic_rendering: true,
        synchronization2: true,
    }
}

fn full_extensions() -> Vec<String> {
    let mut e = vec!["VK_KHR_maintenance1".to_string()];
    e.extend(get_required_device_extensions());
    e.push("VK_EXT_debug_marker".to_string());
    e
}

fn family(graphics: bool, present: bool) -> QueueFamilyInfo {
    QueueFamilyInfo { graphics, present }
}

#[test]
fn required_extensions_match_vulkan_names() {
    let names = get_required_device_extensions();
    assert_eq!(
        names,
        vec![
            ash::khr::swapchain::NAME.to_str().unwrap(),
            ash::vk::KHR_ACCELERATION_STRUCTURE_NAME.to_str().unwrap(),
            ash::vk::KHR_RAY_TRACING_PIPELINE_NAME.to_str().unwrap(),
            ash::vk::KHR_DEFERRED_HOST_OPERATIONS_NAME.to_str().unwrap(),
        ]
    );
}

#[test]
fn extensions_are_checked() {
    assert!(check_required_extensions(&full_extensions()));
    let mut missing = full_extensions();
    missing.retain(|e| e != "VK_KHR_ray_tracing_pipeline");
    assert!(!check_required_extensions(&missing));
    assert!(!check_required_extensions(&Vec::new()));
}

#[test]
fn features_are_checked() {
    assert!(check_required_features(&all_features()));
    let mut f = all_features();
    f.synchronization2 = false;
    assert!(!check_required_features(&f));
    let mut f = all_features();
    f.sampler_anisotropy = false;
    assert!(!check_required_features(&f));
}

#[test]
fn universal_family_draws_and_presents() {
    assert_eq!(find_universal_queue_family(&[family(false, true), family(true, false), family(true, true)]), Some(2));
    assert_eq!(find_universal_queue_family(&[family(true, true), family(true, true)]), Some(0));
    assert_eq!(find_universal_queue_family(&[family(false, true), family(true, false)]), None);
    assert_eq!(find_universal_queue_family(&[]), None);
}

#[test]
fn first_suitable_device_is_selected() {
    let no_rt = PhysicalDeviceInfo {
        extensions: vec!["VK_KHR_swapchain".to_string()],
        features: all_features(),
        queue_families: vec![family(true, true)],
    };
    let no_present = PhysicalDeviceInfo {
        extensions: full_extensions(),
        features: all_features(),
        queue_families: vec![family(true, false)],
    };
    let good = PhysicalDeviceInfo {
        extensions: full_extensions(),
        features: all_features(),
        queue_families: vec![family(false, false), family(true, true)],
    };
    let also_good = good.clone();
    assert_eq!(select_physical_device(&vec![no_rt.clone(), no_present.clone(), good, also_good]), Some((2, 1)));
    assert_eq!(select_physical_device(&vec![no_rt, no_present]), None);
}
