use vulkan_tutorial::vulkan::check_validation_layer_support;
use vulkan_tutorial::vulkan::contains_name;
use vulkan_tutorial::vulkan::debug_utils_extension_name;
use vulkan_tutorial::vulkan::plan_instance;
use vulkan_tutorial::vulkan::required_device_extensions;
use vulkan_tutorial::vulkan::validation_layers;

fn names(list: &[&str]) -> Vec<String> {
    list.iter().map(|s| s.to_string()).collect()
}

#[test]
fn supports_all_requested_names_present() {
    let offered = names(&["VK_LAYER_KHRONOS_validation", "VK_LAYER_LUNARG_api_dump"]);
    let requested = names(&["VK_LAYER_KHRONOS_validation"]);
    assert!(check_validation_layer_support(&offered, &requested));
}

#[test]
fn supports_missing_name_rejected() {
    let offered = names(&["VK_LAYER_LUNARG_api_dump"]);
    let requested = names(&["VK_LAYER_KHRONOS_validation"]);
    assert!(!check_validation_layer_support(&offered, &requested));
}

#[test]
fn supports_no_partial_match() {
    let offered = names(&["VK_LAYER_KHRONOS_validation_extra"]);
    let requested = names(&["VK_LAYER_KHRONOS_validation"]);
    assert!(!check_validation_layer_support(&offered, &requested));
}

#[test]
fn supports_no_case_normalization() {
    let offered = names(&["vk_layer_khronos_validation"]);
    let requested = names(&["VK_LAYER_KHRONOS_validation"]);
    assert!(!check_validation_layer_support(&offered, &requested));
}

#[test]
fn supports_empty_request_with_nonempty_offered_is_true() {
    let offered = names(&["VK_LAYER_LUNARG_api_dump"]);
    let requested: Vec<String> = Vec::new();
    assert!(check_validation_layer_support(&offered, &requested));
}

#[test]
fn supports_empty_offered_list_is_false() {
    let offered: Vec<String> = Vec::new();
    let requested: Vec<String> = Vec::new();
    assert!(!check_validation_layer_support(&offered, &requested));
    let requested = names(&["VK_LAYER_KHRONOS_validation"]);
    assert!(!check_validation_layer_support(&offered, &requested));
}

#[test]
fn contains_name_finds_exact_match_only() {
    let offered = names(&["alpha", "beta"]);
    assert!(contains_name(&offered, &"beta".to_string()));
    assert!(!contains_name(&offered, &"bet".to_string()));
    assert!(!contains_name(&offered, &"gamma".to_string()));
}

#[test]
fn hardcoded_singletons() {
    let layers = validation_layers();
    assert_eq!(layers, vec!["VK_LAYER_KHRONOS_validation".to_string()]);
    let extensions = required_device_extensions();
    assert_eq!(extensions, vec!["VK_KHR_swapchain".to_string()]);
    assert_eq!(debug_utils_extension_name(), "VK_EXT_debug_utils".to_string());
}

#[test]
fn plan_with_available_layers_enables_diagnostics() {
    let offered = names(&["VK_LAYER_KHRONOS_validation"]);
    let requested = validation_layers();
    let platform = names(&["VK_KHR_surface", "VK_KHR_xlib_surface"]);
    let debug_ext = debug_utils_extension_name();
    let plan = plan_instance(&offered, &requested, &platform, &debug_ext, true);
    assert!(plan.attach_debug_messenger);
    assert!(!plan.layers_missing);
    assert_eq!(plan.enabled_layers, requested);
    assert_eq!(
        plan.enabled_extensions,
        names(&["VK_KHR_surface", "VK_KHR_xlib_surface", "VK_EXT_debug_utils"])
    );
}

#[test]
fn plan_with_zero_offered_layers_proceeds_without_diagnostics() {
    let offered: Vec<String> = Vec::new();
    let requested = validation_layers();
    let platform = names(&["VK_KHR_surface"]);
    let debug_ext = debug_utils_extension_name();
    let plan = plan_instance(&offered, &requested, &platform, &debug_ext, true);
    assert!(!plan.attach_debug_messenger);
    assert!(plan.layers_missing);
    assert!(plan.enabled_layers.is_empty());
    assert_eq!(plan.enabled_extensions, platform);
}

#[test]
fn plan_without_diagnostics_requested_never_warns() {
    let offered: Vec<String> = Vec::new();
    let requested = validation_layers();
    let platform = names(&["VK_KHR_surface"]);
    let debug_ext = debug_utils_extension_name();
    let plan = plan_instance(&offered, &requested, &platform, &debug_ext, false);
    assert!(!plan.attach_debug_messenger);
    assert!(!plan.layers_missing);
    assert!(plan.enabled_layers.is_empty());
    assert_eq!(plan.enabled_extensions, platform);
}
