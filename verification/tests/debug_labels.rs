use vulkan_tutorial::vulkan::severity_label;
use vulkan_tutorial::vulkan::type_label;
use vulkan_tutorial::vulkan::DEBUG_SEVERITY_ERROR;
use vulkan_tutorial::vulkan::DEBUG_SEVERITY_INFO;
use vulkan_tutorial::vulkan::DEBUG_SEVERITY_VERBOSE;
use vulkan_tutorial::vulkan::DEBUG_SEVERITY_WARNING;
use vulkan_tutorial::vulkan::DEBUG_TYPE_GENERAL;
use vulkan_tutorial::vulkan::DEBUG_TYPE_PERFORMANCE;
use vulkan_tutorial::vulkan::DEBUG_TYPE_VALIDATION;

#[test]
fn severity_tags() {
    assert_eq!(severity_label(DEBUG_SEVERITY_VERBOSE), "[Verbose]");
    assert_eq!(severity_label(DEBUG_SEVERITY_INFO), "[Info]");
    assert_eq!(severity_label(DEBUG_SEVERITY_WARNING), "[Warning]");
    assert_eq!(severity_label(DEBUG_SEVERITY_ERROR), "[Error]");
}

#[test]
fn severity_unknown_for_combined_or_foreign_bits() {
    assert_eq!(severity_label(DEBUG_SEVERITY_VERBOSE | DEBUG_SEVERITY_ERROR), "[Unknown]");
    assert_eq!(severity_label(0), "[Unknown]");
    assert_eq!(severity_label(0x2000), "[Unknown]");
}

#[test]
fn type_tags() {
    assert_eq!(type_label(DEBUG_TYPE_GENERAL), "[General]");
    assert_eq!(type_label(DEBUG_TYPE_VALIDATION), "[Validation]");
    assert_eq!(type_label(DEBUG_TYPE_PERFORMANCE), "[Performance]");
}

#[test]
fn type_unknown_for_combined_or_foreign_bits() {
    assert_eq!(type_label(DEBUG_TYPE_GENERAL | DEBUG_TYPE_VALIDATION), "[Unknown]");
    assert_eq!(type_label(0), "[Unknown]");
}

#[test]
fn debug_line_shape() {
    // The diagnostic sink writes `[Debug]{severity}{category}{message}`.
    let line = format!(
        "[Debug]{}{}{}",
        severity_label(DEBUG_SEVERITY_WARNING),
        type_label(DEBUG_TYPE_VALIDATION),
        "sample message"
    );
    assert_eq!(line, "[Debug][Warning][Validation]sample message");
}
