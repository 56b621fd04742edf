//! Instance-level logic: validation-layer probing, instance planning and
//! the labels used when formatting driver diagnostics.

pub mod device;
pub mod swapchain;

use vstd::prelude::*;

verus! {

/// Queue-family selection: the graphics-capable and presentation-capable
/// family indices, each optional until resolved.
pub struct QueueFamilyIndices {
    pub graphics_family: Option<u32>,
    pub present_family: Option<u32>,
}

impl QueueFamilyIndices {
    /// A selection is complete exactly when both indices are present.
    pub fn is_complete(&self) -> (r: bool)
        ensures
            r == (self.graphics_family is Some && self.present_family is Some),
    {
        self.graphics_family.is_some() && self.present_family.is_some()
    }
}

/// Whether `wanted` appears verbatim among `names`.
pub open spec fn name_present(names: Seq<String>, wanted: Seq<char>) -> bool {
    exists|i: int| 0 <= i < names.len() && names[i]@ == wanted
}

/// Whether every name of `wanted` appears verbatim among `names`.
pub open spec fn all_names_present(names: Seq<String>, wanted: Seq<String>) -> bool {
    forall|j: int| 0 <= j < wanted.len() ==> name_present(names, #[trigger] wanted[j]@)
}

/// Exact-match membership test over a list of names.
pub fn contains_name(names: &Vec<String>, wanted: &String) -> (r: bool)
    ensures
        r == name_present(names@, wanted@),
{
    let mut i: usize = 0;
    while i < names.len()
        invariant
            0 <= i <= names@.len(),
            forall|k: int| 0 <= k < i ==> names@[k]@ != wanted@,
        decreases names@.len() - i,
    {
        if names[i] == *wanted {
            return true;
        }
        i += 1;
    }
    false
}

/// What the layer-support probe reports: some layer is offered at all,
/// and every required layer name has an exact match among the offered
/// names.
pub open spec fn spec_layer_support(offered: Seq<String>, required: Seq<String>) -> bool {
    offered.len() > 0 && all_names_present(offered, required)
}

/// Layer-support probe: true only when the offered list is non-empty and
/// every required layer name has an exact match among the offered names.
pub fn check_validation_layer_support(offered: &Vec<String>, required: &Vec<String>) -> (r: bool)
    ensures
        r == spec_layer_support(offered@, required@),
{
    if offered.len() == 0 {
        return false;
    }
    let mut j: usize = 0;
    while j < required.len()
        invariant
            0 <= j <= required@.len(),
            offered@.len() > 0,
            forall|k: int| 0 <= k < j ==> name_present(offered@, #[trigger] required@[k]@),
        decreases required@.len() - j,
    {
        if !contains_name(offered, &required[j]) {
            return false;
        }
        j += 1;
    }
    true
}

/// Law: whenever any layer is offered at all, the probe answers true
/// exactly when every requested name appears verbatim among the offered
/// names; in particular an empty request is always supported then.
pub proof fn lemma_layer_support_iff_all_present(offered: Seq<String>, requested: Seq<String>)
    requires
        offered.len() > 0,
    ensures
        spec_layer_support(offered, requested) == all_names_present(offered, requested),
        requested.len() == 0 ==> spec_layer_support(offered, requested),
{
}

/// An owned copy of a list of names, element for element.
pub fn clone_names(names: &Vec<String>) -> (r: Vec<String>)
    ensures
        r@ =~= names@,
{
    let mut r: Vec<String> = Vec::new();
    let mut i: usize = 0;
    while i < names.len()
        invariant
            0 <= i <= names@.len(),
            r@ =~= names@.subrange(0, i as int),
        decreases names@.len() - i,
    {
        r.push(names[i].clone());
        i += 1;
    }
    r
}

/// Everything context creation decides before touching the driver: which
/// layers and extensions to enable, whether to attach the diagnostic
/// callback to the creation request, and whether to warn that requested
/// diagnostics are unavailable.
pub struct InstancePlan {
    pub enabled_layers: Vec<String>,
    pub enabled_extensions: Vec<String>,
    pub attach_debug_messenger: bool,
    pub layers_missing: bool,
}

/// The exact relation between a plan and the inputs it was derived from.
/// Diagnostics become active only when requested and every requested
/// layer is offered; active diagnostics enable the requested layers,
/// append the debug extension after the platform extensions, and attach
/// the callback descriptor.
pub open spec fn instance_plan_describes(
    offered: Seq<String>,
    requested: Seq<String>,
    platform_extensions: Seq<String>,
    debug_extension: String,
    enable_diagnostics: bool,
    r: InstancePlan,
) -> bool {
    let active = enable_diagnostics && spec_layer_support(offered, requested);
    &&& r.attach_debug_messenger == active
    &&& r.layers_missing == (enable_diagnostics && !spec_layer_support(offered, requested))
    &&& r.enabled_layers@ == if active {
        requested
    } else {
        Seq::<String>::empty()
    }
    &&& r.enabled_extensions@ == if active {
        platform_extensions.push(debug_extension)
    } else {
        platform_extensions
    }
}

/// Resolves diagnostic-layer availability and assembles the layer and
/// extension lists for context creation. Requested-but-unavailable
/// diagnostics are dropped with a warning flag, never an error.
pub fn plan_instance(
    offered_layers: &Vec<String>,
    requested_layers: &Vec<String>,
    platform_extensions: &Vec<String>,
    debug_extension: &String,
    enable_diagnostics: bool,
) -> (r: InstancePlan)
    ensures
        instance_plan_describes(
            offered_layers@,
            requested_layers@,
            platform_extensions@,
            *debug_extension,
            enable_diagnostics,
            r,
        ),
{
    let supported = check_validation_layer_support(offered_layers, requested_layers);
    let active = enable_diagnostics && supported;

    let enabled_layers = if active {
        clone_names(requested_layers)
    } else {
        Vec::new()
    };
    let mut enabled_extensions = clone_names(platform_extensions);
    if active {
        enabled_extensions.push(debug_extension.clone());
    }

    InstancePlan {
        enabled_layers,
        enabled_extensions,
        attach_debug_messenger: active,
        layers_missing: enable_diagnostics && !supported,
    }
}

/// Law: a context planned with diagnostics requested but zero layers
/// offered goes ahead with an empty enabled-layer list, attaches no
/// diagnostic callback, and leaves the extension list as the platform
/// requires it.
pub proof fn lemma_no_offered_layers_disables_diagnostics(
    offered: Seq<String>,
    requested: Seq<String>,
    platform_extensions: Seq<String>,
    debug_extension: String,
    r: InstancePlan,
)
    requires
        instance_plan_describes(offered, requested, platform_extensions, debug_extension, true, r),
        offered.len() == 0,
    ensures
        r.enabled_layers@.len() == 0,
        !r.attach_debug_messenger,
        r.enabled_extensions@ == platform_extensions,
        r.layers_missing,
{
}

/// The single hardcoded diagnostic layer the context factory requests.
pub fn validation_layers() -> (r: Vec<String>)
    ensures
        r@.len() == 1,
        r@[0]@ == "VK_LAYER_KHRONOS_validation"@,
{
    let mut r: Vec<String> = Vec::new();
    r.push("VK_LAYER_KHRONOS_validation".to_owned());
    r
}

/// The single hardcoded device extension the selector and the logical
/// device require: presentation-chain support.
pub fn required_device_extensions() -> (r: Vec<String>)
    ensures
        r@.len() == 1,
        r@[0]@ == "VK_KHR_swapchain"@,
{
    let mut r: Vec<String> = Vec::new();
    r.push("VK_KHR_swapchain".to_owned());
    r
}

/// The instance extension that carries diagnostic messages.
pub fn debug_utils_extension_name() -> (r: String)
    ensures
        r@ == "VK_EXT_debug_utils"@,
{
    "VK_EXT_debug_utils".to_owned()
}

/// Severity bit of a verbose diagnostic message.
pub const DEBUG_SEVERITY_VERBOSE: u32 = 0x1;

/// Severity bit of an informational diagnostic message.
pub const DEBUG_SEVERITY_INFO: u32 = 0x10;

/// Severity bit of a warning diagnostic message.
pub const DEBUG_SEVERITY_WARNING: u32 = 0x100;

/// Severity bit of an error diagnostic message.
pub const DEBUG_SEVERITY_ERROR: u32 = 0x1000;

/// Category bit of a general diagnostic message.
pub const DEBUG_TYPE_GENERAL: u32 = 0x1;

/// Category bit of a validation diagnostic message.
pub const DEBUG_TYPE_VALIDATION: u32 = 0x2;

/// Category bit of a performance diagnostic message.
pub const DEBUG_TYPE_PERFORMANCE: u32 = 0x4;

/// The tag printed for each severity value.
pub open spec fn spec_severity_label(severity: u32) -> Seq<char> {
    if severity == DEBUG_SEVERITY_VERBOSE {
        "[Verbose]"@
    } else if severity == DEBUG_SEVERITY_WARNING {
        "[Warning]"@
    } else if severity == DEBUG_SEVERITY_ERROR {
        "[Error]"@
    } else if severity == DEBUG_SEVERITY_INFO {
        "[Info]"@
    } else {
        "[Unknown]"@
    }
}

/// Maps a message severity value to its printed tag.
pub fn severity_label(severity: u32) -> (r: &'static str)
    ensures
        r@ == spec_severity_label(severity),
{
    if severity == DEBUG_SEVERITY_VERBOSE {
        "[Verbose]"
    } else if severity == DEBUG_SEVERITY_WARNING {
        "[Warning]"
    } else if severity == DEBUG_SEVERITY_ERROR {
        "[Error]"
    } else if severity == DEBUG_SEVERITY_INFO {
        "[Info]"
    } else {
        "[Unknown]"
    }
}

/// The tag printed for each category value.
pub open spec fn spec_type_label(message_type: u32) -> Seq<char> {
    if message_type == DEBUG_TYPE_GENERAL {
        "[General]"@
    } else if message_type == DEBUG_TYPE_PERFORMANCE {
        "[Performance]"@
    } else if message_type == DEBUG_TYPE_VALIDATION {
        "[Validation]"@
    } else {
        "[Unknown]"@
    }
}

/// Maps a message category value to its printed tag.
pub fn type_label(message_type: u32) -> (r: &'static str)
    ensures
        r@ == spec_type_label(message_type),
{
    if message_type == DEBUG_TYPE_GENERAL {
        "[General]"
    } else if message_type == DEBUG_TYPE_PERFORMANCE {
        "[Performance]"
    } else if message_type == DEBUG_TYPE_VALIDATION {
        "[Validation]"
    } else {
        "[Unknown]"
    }
}

} // verus!
