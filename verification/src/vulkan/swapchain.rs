//! Swapchain negotiation: format, presentation mode, extent and image
//! count, plus the queue-family index list handed to chain creation.

use vstd::prelude::*;
use crate::vulkan::QueueFamilyIndices;

verus! {

/// Raw value of the 8-bit BGRA sRGB-encoded storage format.
pub const FORMAT_B8G8R8A8_SRGB: i32 = 50;

/// Raw value of the sRGB non-linear color space.
pub const COLOR_SPACE_SRGB_NONLINEAR: i32 = 0;

/// Raw value of the triple-buffered low-latency presentation mode.
pub const PRESENT_MODE_MAILBOX: i32 = 1;

/// Raw value of the universally supported blocking presentation mode.
pub const PRESENT_MODE_FIFO: i32 = 2;

/// Sentinel current-extent width meaning "use the window size".
pub const EXTENT_USE_WINDOW_SIZE: u32 = 0xFFFF_FFFF;

/// A pixel format paired with a color space, by raw value.
#[derive(Clone, Copy, PartialEq, Eq, Structural, Debug)]
pub struct SurfaceFormat {
    pub format: i32,
    pub color_space: i32,
}

/// A width and height in pixels.
#[derive(Clone, Copy, PartialEq, Eq, Structural, Debug)]
pub struct Extent2d {
    pub width: u32,
    pub height: u32,
}

/// The surface capability snapshot the negotiation reads.
#[derive(Clone, Copy, PartialEq, Eq, Structural, Debug)]
pub struct SurfaceCapabilities {
    pub min_image_count: u32,
    pub max_image_count: u32,
    pub current_extent: Extent2d,
    pub min_image_extent: Extent2d,
    pub max_image_extent: Extent2d,
}

impl SurfaceCapabilities {
    /// Well-formedness as the platform guarantees it: the extent bounds
    /// are ordered componentwise, and one more than the minimum image
    /// count still fits in 32 bits.
    pub open spec fn wf(self) -> bool {
        &&& self.min_image_extent.width <= self.max_image_extent.width
        &&& self.min_image_extent.height <= self.max_image_extent.height
        &&& self.min_image_count < 0xFFFF_FFFF
    }
}

/// Snapshot of a device's presentation capabilities for one surface.
pub struct SwapchainSupportDetails {
    pub capabilities: SurfaceCapabilities,
    pub formats: Vec<SurfaceFormat>,
    pub present_modes: Vec<i32>,
}

/// The preferred format pair: 8-bit BGRA sRGB storage with the sRGB
/// non-linear color space.
pub open spec fn preferred_format() -> SurfaceFormat {
    SurfaceFormat { format: FORMAT_B8G8R8A8_SRGB, color_space: COLOR_SPACE_SRGB_NONLINEAR }
}

/// The negotiated format: the preferred pair when the list offers it,
/// otherwise the first entry in enumeration order.
pub open spec fn spec_chosen_format(formats: Seq<SurfaceFormat>) -> SurfaceFormat {
    if formats.contains(preferred_format()) {
        preferred_format()
    } else {
        formats[0]
    }
}

/// The negotiated presentation mode: the low-latency mode when offered,
/// otherwise the blocking mode, unconditionally.
pub open spec fn spec_chosen_present_mode(modes: Seq<i32>) -> i32 {
    if modes.contains(PRESENT_MODE_MAILBOX) {
        PRESENT_MODE_MAILBOX
    } else {
        PRESENT_MODE_FIFO
    }
}

/// `input` clamped into `[min, max]`.
pub open spec fn spec_clamp(input: u32, min: u32, max: u32) -> u32 {
    if input < min {
        min
    } else if input > max {
        max
    } else {
        input
    }
}

/// The negotiated extent: the surface's current extent when it is not the
/// sentinel, otherwise the window size clamped into the extent bounds
/// componentwise.
pub open spec fn spec_chosen_extent(caps: SurfaceCapabilities, window: Extent2d) -> Extent2d {
    if caps.current_extent.width != EXTENT_USE_WINDOW_SIZE {
        caps.current_extent
    } else {
        Extent2d {
            width: spec_clamp(window.width, caps.min_image_extent.width, caps.max_image_extent.width),
            height: spec_clamp(window.height, caps.min_image_extent.height, caps.max_image_extent.height),
        }
    }
}

/// The negotiated image count: one more than the minimum, clamped down to
/// the maximum when that bound is nonzero (zero means unbounded).
pub open spec fn spec_chosen_image_count(caps: SurfaceCapabilities) -> u32
    recommends
        caps.min_image_count < 0xFFFF_FFFF,
{
    let desired = (caps.min_image_count + 1) as u32;
    if caps.max_image_count > 0 && desired > caps.max_image_count {
        caps.max_image_count
    } else {
        desired
    }
}

/// The family indices passed to chain creation: both indices when the
/// graphics and presentation families differ, none when they coincide.
pub open spec fn spec_sharing_indices(g: u32, p: u32) -> Seq<u32> {
    if g != p {
        seq![g, p]
    } else {
        Seq::<u32>::empty()
    }
}

/// Relies on num::clamp: returns `min` when the input is below it, `max`
/// when above it, and the input itself otherwise; it may panic when
/// `min > max`, which the precondition rules out.
#[verifier::external_body]
fn clamp_u32(input: u32, min: u32, max: u32) -> (r: u32)
    requires
        min <= max,
    ensures
        r == spec_clamp(input, min, max),
{
    num::clamp(input, min, max)
}

impl SwapchainSupportDetails {
    /// The capability snapshot is well formed and at least one format and
    /// one presentation mode were reported.
    pub open spec fn wf(self) -> bool {
        &&& self.capabilities.wf()
        &&& self.formats@.len() > 0
        &&& self.present_modes@.len() > 0
    }

    /// Picks the preferred format pair if present anywhere in the list,
    /// else falls back to the first reported format.
    pub fn choose_format(&self) -> (r: SurfaceFormat)
        requires
            self.formats@.len() > 0,
        ensures
            r == spec_chosen_format(self.formats@),
    {
        let mut i: usize = 0;
        while i < self.formats.len()
            invariant
                0 <= i <= self.formats@.len(),
                forall|k: int| 0 <= k < i ==> self.formats@[k] != preferred_format(),
            decreases self.formats@.len() - i,
        {
            let available = self.formats[i];
            if available.format == FORMAT_B8G8R8A8_SRGB
                && available.color_space == COLOR_SPACE_SRGB_NONLINEAR {
                assert(self.formats@.contains(preferred_format()));
                return available;
            }
            i += 1;
        }
        assert(!self.formats@.contains(preferred_format()));
        self.formats[0]
    }

    /// Picks the low-latency mode if offered, else the blocking mode.
    pub fn choose_present_mode(&self) -> (r: i32)
        ensures
            r == spec_chosen_present_mode(self.present_modes@),
    {
        let mut i: usize = 0;
        while i < self.present_modes.len()
            invariant
                0 <= i <= self.present_modes@.len(),
                forall|k: int| 0 <= k < i ==> self.present_modes@[k] != PRESENT_MODE_MAILBOX,
            decreases self.present_modes@.len() - i,
        {
            let available = self.present_modes[i];
            if available == PRESENT_MODE_MAILBOX {
                assert(self.present_modes@.contains(PRESENT_MODE_MAILBOX));
                return available;
            }
            i += 1;
        }
        assert(!self.present_modes@.contains(PRESENT_MODE_MAILBOX));
        PRESENT_MODE_FIFO
    }

    /// Uses the surface's current extent unless it carries the sentinel,
    /// in which case the window size is clamped into the extent bounds.
    pub fn choose_extent(&self, window: Extent2d) -> (r: Extent2d)
        requires
            self.capabilities.wf(),
        ensures
            r == spec_chosen_extent(self.capabilities, window),
    {
        if self.capabilities.current_extent.width != EXTENT_USE_WINDOW_SIZE {
            self.capabilities.current_extent
        } else {
            Extent2d {
                width: clamp_u32(
                    window.width,
                    self.capabilities.min_image_extent.width,
                    self.capabilities.max_image_extent.width,
                ),
                height: clamp_u32(
                    window.height,
                    self.capabilities.min_image_extent.height,
                    self.capabilities.max_image_extent.height,
                ),
            }
        }
    }

    /// One more image than the minimum, clamped down to the maximum when
    /// that bound is nonzero.
    pub fn choose_image_count(&self) -> (r: u32)
        requires
            self.capabilities.wf(),
        ensures
            r == spec_chosen_image_count(self.capabilities),
    {
        let desired: u32 = self.capabilities.min_image_count + 1;
        if self.capabilities.max_image_count > 0 && desired > self.capabilities.max_image_count {
            self.capabilities.max_image_count
        } else {
            desired
        }
    }
}

/// Everything chain creation needs that the negotiation decides: format,
/// presentation mode, extent, image count, and the family index list.
pub struct SwapchainPlan {
    pub surface_format: SurfaceFormat,
    pub present_mode: i32,
    pub extent: Extent2d,
    pub image_count: u32,
    pub queue_family_indices: Vec<u32>,
}

/// Runs the whole negotiation over one capability snapshot and a complete
/// queue-family selection.
pub fn plan_swapchain(
    details: &SwapchainSupportDetails,
    indices: &QueueFamilyIndices,
    window: Extent2d,
) -> (r: SwapchainPlan)
    requires
        details.wf(),
        indices.graphics_family is Some,
        indices.present_family is Some,
    ensures
        r.surface_format == spec_chosen_format(details.formats@),
        r.present_mode == spec_chosen_present_mode(details.present_modes@),
        r.extent == spec_chosen_extent(details.capabilities, window),
        r.image_count == spec_chosen_image_count(details.capabilities),
        r.queue_family_indices@ =~= spec_sharing_indices(
            indices.graphics_family->Some_0,
            indices.present_family->Some_0,
        ),
{
    let surface_format = details.choose_format();
    let present_mode = details.choose_present_mode();
    let extent = details.choose_extent(window);
    let image_count = details.choose_image_count();

    let graphics = indices.graphics_family.unwrap();
    let present = indices.present_family.unwrap();
    let mut queue_family_indices: Vec<u32> = Vec::new();
    if graphics != present {
        queue_family_indices.push(graphics);
        queue_family_indices.push(present);
    }

    SwapchainPlan {
        surface_format,
        present_mode,
        extent,
        image_count,
        queue_family_indices,
    }
}

/// Law: when the offered mode list does not contain the low-latency mode,
/// the negotiated mode is the blocking one.
pub proof fn lemma_present_mode_fallback(modes: Seq<i32>)
    requires
        !modes.contains(PRESENT_MODE_MAILBOX),
    ensures
        spec_chosen_present_mode(modes) == PRESENT_MODE_FIFO,
{
}

/// Law: when the offered format list contains the preferred pair, the
/// negotiated format is that pair, wherever it sits in the list.
pub proof fn lemma_preferred_format_always_wins(formats: Seq<SurfaceFormat>)
    requires
        formats.contains(preferred_format()),
    ensures
        spec_chosen_format(formats) == preferred_format(),
{
}

/// Law: when the offered format list does not contain the preferred pair,
/// the negotiated format is the first entry in enumeration order.
pub proof fn lemma_format_fallback_is_first(formats: Seq<SurfaceFormat>)
    requires
        formats.len() > 0,
        !formats.contains(preferred_format()),
    ensures
        spec_chosen_format(formats) == formats[0],
{
}

} // verus!
