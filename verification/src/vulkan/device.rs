//! Physical-device selection: extension support, queue-family search and
//! the first-match suitability scan over enumerated devices.

use vstd::prelude::*;
use crate::vulkan::QueueFamilyIndices;
use crate::vulkan::all_names_present;
use crate::vulkan::contains_name;
use crate::vulkan::name_present;
use crate::vulkan::swapchain::SwapchainSupportDetails;

verus! {

/// The class a candidate device reports itself as.
#[derive(Clone, Copy, PartialEq, Eq, Structural, Debug)]
pub enum DeviceType {
    Other,
    IntegratedGpu,
    DiscreteGpu,
    VirtualGpu,
    Cpu,
}

/// Snapshot of one queue family: how many queues it offers and whether it
/// advertises graphics work and presentation to the bound surface.
#[derive(Clone, Copy, PartialEq, Eq, Structural, Debug)]
pub struct QueueFamilyInfo {
    pub queue_count: u32,
    pub supports_graphics: bool,
    pub supports_present: bool,
}

/// Read-only snapshot of one candidate device: its class, the extension
/// names it reports, its queue families, and its presentation capabilities
/// for the bound surface.
pub struct PhysicalDeviceInfo {
    pub device_type: DeviceType,
    pub extension_names: Vec<String>,
    pub queue_families: Vec<QueueFamilyInfo>,
    pub swapchain_support: SwapchainSupportDetails,
}

/// A family can serve as the graphics candidate: positive queue count and
/// graphics capability.
pub open spec fn graphics_candidate(f: QueueFamilyInfo) -> bool {
    f.queue_count > 0 && f.supports_graphics
}

/// A family can serve as the presentation candidate: positive queue count
/// and presentation support for the surface.
pub open spec fn present_candidate(f: QueueFamilyInfo) -> bool {
    f.queue_count > 0 && f.supports_present
}

pub open spec fn has_graphics_family(fams: Seq<QueueFamilyInfo>) -> bool {
    exists|k: int| 0 <= k < fams.len() && graphics_candidate(#[trigger] fams[k])
}

pub open spec fn has_present_family(fams: Seq<QueueFamilyInfo>) -> bool {
    exists|k: int| 0 <= k < fams.len() && present_candidate(#[trigger] fams[k])
}

/// A complete selection exists: some family can take graphics work and
/// some family (possibly the same) can present.
pub open spec fn queue_families_complete(fams: Seq<QueueFamilyInfo>) -> bool {
    has_graphics_family(fams) && has_present_family(fams)
}

impl PhysicalDeviceInfo {
    /// The family list's length fits the 32-bit indices a selection holds.
    pub open spec fn wf(self) -> bool {
        self.queue_families@.len() <= 0xFFFF_FFFF
    }
}

/// The exact outcome of the queue-family scan: each recorded index is the
/// first of its kind, and an absent index means no family of that kind
/// exists anywhere in the list.
pub open spec fn search_describes(fams: Seq<QueueFamilyInfo>, r: QueueFamilyIndices) -> bool {
    &&& (match r.graphics_family {
        Some(g) => g < fams.len() && graphics_candidate(fams[g as int])
            && (forall|k: int| 0 <= k < g ==> !graphics_candidate(#[trigger] fams[k])),
        None => !has_graphics_family(fams),
    })
    &&& (match r.present_family {
        Some(p) => p < fams.len() && present_candidate(fams[p as int])
            && (forall|k: int| 0 <= k < p ==> !present_candidate(#[trigger] fams[k])),
        None => !has_present_family(fams),
    })
}

/// Scans the queue families in index order and records, independently, the
/// first graphics-capable and the first presentation-capable family with a
/// positive queue count; stops as soon as both are set. Returns whatever
/// was found even if incomplete.
pub fn find_queue_family(families: &Vec<QueueFamilyInfo>) -> (r: QueueFamilyIndices)
    requires
        families@.len() <= 0xFFFF_FFFF,
    ensures
        search_describes(families@, r),
        (r.graphics_family is Some) == has_graphics_family(families@),
        (r.present_family is Some) == has_present_family(families@),
{
    let mut graphics_family: Option<u32> = None;
    let mut present_family: Option<u32> = None;
    let mut index: usize = 0;

    while index < families.len() && !(graphics_family.is_some() && present_family.is_some())
        invariant
            families@.len() <= 0xFFFF_FFFF,
            0 <= index <= families@.len(),
            (match graphics_family {
                Some(g) => g < index && graphics_candidate(families@[g as int])
                    && (forall|k: int| 0 <= k < g ==> !graphics_candidate(#[trigger] families@[k])),
                None => forall|k: int| 0 <= k < index ==> !graphics_candidate(#[trigger] families@[k]),
            }),
            (match present_family {
                Some(p) => p < index && present_candidate(families@[p as int])
                    && (forall|k: int| 0 <= k < p ==> !present_candidate(#[trigger] families@[k])),
                None => forall|k: int| 0 <= k < index ==> !present_candidate(#[trigger] families@[k]),
            }),
        decreases families@.len() - index,
    {
        let family = families[index];
        if family.queue_count > 0 && family.supports_graphics && graphics_family.is_none() {
            graphics_family = Some(index as u32);
        }
        if family.queue_count > 0 && family.supports_present && present_family.is_none() {
            present_family = Some(index as u32);
        }
        index += 1;
    }

    QueueFamilyIndices { graphics_family, present_family }
}

/// True exactly when every required extension name appears verbatim among
/// the device's reported extension names.
pub fn check_device_extension_support(available: &Vec<String>, required: &Vec<String>) -> (r: bool)
    ensures
        r == all_names_present(available@, required@),
{
    let mut j: usize = 0;
    while j < required.len()
        invariant
            0 <= j <= required@.len(),
            forall|k: int| 0 <= k < j ==> name_present(available@, #[trigger] required@[k]@),
        decreases required@.len() - j,
    {
        if !contains_name(available, &required[j]) {
            return false;
        }
        j += 1;
    }
    true
}

/// The four-part suitability predicate: discrete class, all required
/// extensions present, at least one format and one presentation mode for
/// the surface, and a complete queue-family selection.
pub open spec fn spec_suitable(d: PhysicalDeviceInfo, required: Seq<String>) -> bool {
    &&& d.device_type == DeviceType::DiscreteGpu
    &&& all_names_present(d.extension_names@, required)
    &&& d.swapchain_support.formats@.len() > 0
    &&& d.swapchain_support.present_modes@.len() > 0
    &&& queue_families_complete(d.queue_families@)
}

/// Evaluates the suitability predicate on one device snapshot.
pub fn is_device_suitable(device: &PhysicalDeviceInfo, required_extensions: &Vec<String>) -> (r: bool)
    requires
        device.wf(),
    ensures
        r == spec_suitable(*device, required_extensions@),
{
    let is_discrete = device.device_type == DeviceType::DiscreteGpu;
    let extensions_supported = check_device_extension_support(
        &device.extension_names,
        required_extensions,
    );
    let swapchain_adequate = if extensions_supported {
        device.swapchain_support.formats.len() > 0
            && device.swapchain_support.present_modes.len() > 0
    } else {
        false
    };
    let indices = find_queue_family(&device.queue_families);
    let queue_families_supported = indices.is_complete();

    is_discrete && queue_families_supported && extensions_supported && swapchain_adequate
}

/// `sel` is the index of the first suitable device of `devices`, or `None`
/// when no device is suitable.
pub open spec fn is_first_suitable(
    devices: Seq<PhysicalDeviceInfo>,
    required: Seq<String>,
    sel: Option<int>,
) -> bool {
    match sel {
        Some(i) => 0 <= i < devices.len() && spec_suitable(devices[i], required)
            && (forall|k: int| 0 <= k < i ==> !spec_suitable(#[trigger] devices[k], required)),
        None => forall|k: int| 0 <= k < devices.len() ==> !spec_suitable(#[trigger] devices[k], required),
    }
}

/// Walks the enumerated devices in order and returns the index of the
/// first suitable one; `None` when no device passes all four checks.
pub fn get_physical_device(devices: &Vec<PhysicalDeviceInfo>, required_extensions: &Vec<String>) -> (r: Option<usize>)
    requires
        forall|i: int| 0 <= i < devices@.len() ==> (#[trigger] devices@[i]).wf(),
    ensures
        (match r {
            Some(i) => is_first_suitable(devices@, required_extensions@, Some(i as int)),
            None => is_first_suitable(devices@, required_extensions@, None),
        }),
{
    let mut i: usize = 0;
    while i < devices.len()
        invariant
            0 <= i <= devices@.len(),
            forall|k: int| 0 <= k < devices@.len() ==> (#[trigger] devices@[k]).wf(),
            forall|k: int| 0 <= k < i ==> !spec_suitable(#[trigger] devices@[k], required_extensions@),
        decreases devices@.len() - i,
    {
        if is_device_suitable(&devices[i], required_extensions) {
            return Some(i);
        }
        i += 1;
    }
    None
}

/// The one queue request the logical-device builder makes: a single
/// queue from the graphics-capable family only, even when the
/// presentation family differs — a deliberate simplification of this
/// design, so a distinct presentation family gets no queue of its own.
pub fn plan_logical_device(indices: &QueueFamilyIndices) -> (r: u32)
    requires
        indices.graphics_family is Some,
    ensures
        r == indices.graphics_family->Some_0,
{
    indices.graphics_family.unwrap()
}

/// Law: device selection is deterministic. Over one candidate list and one
/// capability snapshot, any two selections that satisfy the first-match
/// characterization are equal.
pub proof fn lemma_selection_deterministic(
    devices: Seq<PhysicalDeviceInfo>,
    required: Seq<String>,
    r1: Option<int>,
    r2: Option<int>,
)
    requires
        is_first_suitable(devices, required, r1),
        is_first_suitable(devices, required, r2),
    ensures
        r1 == r2,
{
    match (r1, r2) {
        (Some(i1), Some(i2)) => {
            if i1 < i2 {
                assert(!spec_suitable(devices[i1], required));
            } else if i2 < i1 {
                assert(!spec_suitable(devices[i2], required));
            }
        },
        (Some(i1), None) => {
            assert(!spec_suitable(devices[i1], required));
        },
        (None, Some(i2)) => {
            assert(!spec_suitable(devices[i2], required));
        },
        (None, None) => {},
    }
}

/// Law: the queue-family search never returns a complete selection that
/// references an index whose queue count is zero — whenever a selection
/// the search describes is complete, both indices are in range and point
/// at families with positive queue counts.
pub proof fn lemma_complete_selection_has_positive_counts(
    families: Seq<QueueFamilyInfo>,
    r: QueueFamilyIndices,
    g: u32,
    p: u32,
)
    requires
        search_describes(families, r),
        r.graphics_family == Some(g),
        r.present_family == Some(p),
    ensures
        g < families.len(),
        p < families.len(),
        families[g as int].queue_count > 0,
        families[p as int].queue_count > 0,
{
}

} // verus!
