use vulcor::devices::{
    device_suitability_score, device_supports_extensions, name_list_contains,
    select_physical_device, DeviceProfile, PhysicalDeviceError, QueueFamilyIndices,
    QueueFamilyProfile,
};

fn family(graphics: bool, presentation: bool) -> QueueFamilyProfile {
    QueueFamilyProfile {
        supports_graphics: graphics,
        supports_presentation: presentation,
    }
}

#[test]
fn first_matching_families_are_chosen() {
    let families = vec![
        family(false, false),
        family(true, false),
        family(true, true),
        family(false, true),
    ];
    let qf = QueueFamilyIndices::new(&families).unwrap();
    assert_eq!(qf.graphics, 1);
    assert_eq!(qf.presentation, 2);
}

#[test]
fn shared_family_may_serve_both() {
    let families = vec![family(true, true)];
    let qf = QueueFamilyIndices::new(&families).unwrap();
    assert_eq!(qf.graphics, 0);
    assert_eq!(qf.presentation, 0);
}

#[test]
fn missing_graphics_family_is_an_error() {
    let families = vec![family(false, true)];
    assert_eq!(
        QueueFamilyIndices::new(&families).unwrap_err(),
        PhysicalDeviceError::NoSuitableQueueFamily
    );
}

#[test]
fn missing_presentation_family_is_an_error() {
    let families = vec![family(true, false), family(true, false)];
    assert_eq!(
        QueueFamilyIndices::new(&families).unwrap_err(),
        PhysicalDeviceError::NoSuitableQueueFamily
    );
}

#[test]
fn unique_values_merges_equal_indices() {
    let shared = QueueFamilyIndices {
        graphics: 4,
        presentation: 4,
    };
    let set = shared.unique_values();
    assert_eq!(set.len(), 1);
    assert!(set.contains(&4));

    let split = QueueFamilyIndices {
        graphics: 4,
        presentation: 6,
    };
    let set = split.unique_values();
    assert_eq!(set.len(), 2);
    assert!(set.contains(&4));
    assert!(set.contains(&6));
}

fn capable_profile() -> DeviceProfile {
    DeviceProfile {
        has_queue_families: true,
        supports_extensions: true,
        has_formats: true,
        has_present_modes: true,
        geometry_shader: true,
        discrete_gpu: false,
        max_image_dimension_2d: 4096,
    }
}

#[test]
fn score_sums_feature_weights_and_image_dimension() {
    let mut d = capable_profile();
    assert_eq!(device_suitability_score(&d), 4096);
    d.discrete_gpu = true;
    assert_eq!(device_suitability_score(&d), 5096);
    d.geometry_shader = false;
    assert_eq!(device_suitability_score(&d), 7096);
}

#[test]
fn score_is_zero_when_anything_essential_is_missing() {
    let mut d = capable_profile();
    d.has_queue_families = false;
    assert_eq!(device_suitability_score(&d), 0);

    let mut d = capable_profile();
    d.supports_extensions = false;
    assert_eq!(device_suitability_score(&d), 0);

    let mut d = capable_profile();
    d.has_formats = false;
    assert_eq!(device_suitability_score(&d), 0);

    let mut d = capable_profile();
    d.has_present_modes = false;
    assert_eq!(device_suitability_score(&d), 0);
}

#[test]
fn selection_takes_last_candidate_with_the_lowest_score() {
    let scores = vec![5, 3, 3, 7];
    assert_eq!(select_physical_device(&scores).unwrap(), 2);
}

#[test]
fn selection_of_a_single_positive_candidate_succeeds() {
    let scores = vec![4096];
    assert_eq!(select_physical_device(&scores).unwrap(), 0);
}

#[test]
fn selection_fails_without_candidates() {
    let scores: Vec<i32> = vec![];
    assert_eq!(
        select_physical_device(&scores).unwrap_err(),
        PhysicalDeviceError::NoSuitableDevice
    );
}

#[test]
fn selection_fails_when_the_lowest_score_is_not_positive() {
    let scores = vec![5, 0, 7];
    assert_eq!(
        select_physical_device(&scores).unwrap_err(),
        PhysicalDeviceError::NoSuitableDevice
    );
}

#[test]
fn error_messages_name_the_failure() {
    assert_eq!(
        PhysicalDeviceError::NoSuitableDevice.message(),
        "No suitable physical devices found."
    );
    assert_eq!(
        PhysicalDeviceError::NoSuitableQueueFamily.message(),
        "No suitable queue family found on the device."
    );
}

#[test]
fn extension_support_requires_every_name() {
    let required = vec![b"VK_KHR_swapchain".to_vec()];
    let available = vec![b"VK_KHR_surface".to_vec(), b"VK_KHR_swapchain".to_vec()];
    assert!(device_supports_extensions(&required, &available));

    let missing = vec![b"VK_KHR_surface".to_vec()];
    assert!(!device_supports_extensions(&required, &missing));

    let none: Vec<Vec<u8>> = vec![];
    assert!(device_supports_extensions(&none, &missing));
}

#[test]
fn name_lookup_compares_whole_names() {
    let names = vec![b"VK_LAYER_KHRONOS_validation".to_vec()];
    assert!(name_list_contains(
        &names,
        &b"VK_LAYER_KHRONOS_validation".to_vec()
    ));
    assert!(!name_list_contains(&names, &b"VK_LAYER_KHRONOS".to_vec()));
    assert!(!name_list_contains(&names, &b"".to_vec()));
}
