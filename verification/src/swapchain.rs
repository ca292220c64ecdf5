//! Swapchain negotiation: choosing an image count, surface format, present
//! mode, extent and sharing mode from the capabilities a device reports.

use vstd::prelude::*;

use crate::device::QueueFamilyIndices;

verus! {

/// A pixel size in driver units, one axis each.
#[derive(Debug, Clone, Copy, PartialEq, Eq, Structural)]
pub struct Extent {
    pub width: u32,
    pub height: u32,
}

/// A surface pixel format, identified either as the preferred 8-bit BGRA
/// sRGB format or by the driver's numeric code.
#[derive(Debug, Clone, Copy, PartialEq, Eq, Structural)]
pub enum Format {
    B8G8R8A8Srgb,
    Other(u32),
}

/// A color space, identified either as non-linear sRGB or by the driver's
/// numeric code.
#[derive(Debug, Clone, Copy, PartialEq, Eq, Structural)]
pub enum ColorSpace {
    SrgbNonLinear,
    Other(u32),
}

/// A presentation mode.  Only the low-latency mailbox mode and the
/// universally supported first-in-first-out mode steer any decision; every
/// other mode is carried by its numeric code.
#[derive(Debug, Clone, Copy, PartialEq, Eq, Structural)]
pub enum PresentMode {
    Mailbox,
    Fifo,
    Other(u32),
}

/// How the swapchain images are shared between queue families: owned by a
/// single family at a time, or shared concurrently between the graphics and
/// the present family.
#[derive(Debug, Clone, Copy, PartialEq, Eq, Structural)]
pub enum SharingMode {
    Exclusive,
    Concurrent(u32, u32),
}

/// The surface capabilities a device reports for a presentation surface,
/// reduced to the values negotiation reads.
#[derive(Debug, Clone, Copy)]
pub struct SurfaceCapabilities {
    pub min_image_count: u32,
    /// `None` when the driver reports no upper bound on the image count.
    pub max_image_count: Option<u32>,
    /// `None` when the driver reports no definite current extent and leaves
    /// the choice to the application.
    pub current_extent: Option<Extent>,
    pub min_image_extent: Extent,
    pub max_image_extent: Extent,
}

impl SurfaceCapabilities {
    /// The bounds a conforming driver guarantees: a reported maximum image
    /// count is no smaller than the minimum, and the extent bounds are
    /// ordered on each axis.
    pub open spec fn well_formed(self) -> bool {
        &&& (self.max_image_count matches Some(limit) ==> self.min_image_count <= limit)
        &&& self.min_image_extent.width <= self.max_image_extent.width
        &&& self.min_image_extent.height <= self.max_image_extent.height
    }
}

/// Everything the swapchain negotiator reads about one device+surface pair:
/// the capabilities, the supported (format, color space) pairs, and the
/// supported present modes.
#[derive(Debug, Clone)]
pub struct SwapChainSupport {
    pub capabilities: SurfaceCapabilities,
    pub formats: Vec<(Format, ColorSpace)>,
    pub present_modes: Vec<PresentMode>,
}

/// The outcome of one swapchain negotiation, immutable once derived.
#[derive(Debug, Clone, Copy, PartialEq, Eq, Structural)]
pub struct SwapchainNegotiationResult {
    pub min_image_count: u32,
    pub format: Format,
    pub color_space: ColorSpace,
    pub present_mode: PresentMode,
    pub extent: Extent,
    pub sharing: SharingMode,
}

/// The (format, color space) pair preferred over every other entry.
pub open spec fn preferred_format_pair() -> (Format, ColorSpace) {
    (Format::B8G8R8A8Srgb, ColorSpace::SrgbNonLinear)
}

/// The pair format selection returns: the preferred pair when the list
/// holds it, the first entry otherwise.
pub open spec fn chosen_format_pair(formats: Seq<(Format, ColorSpace)>) -> (Format, ColorSpace) {
    if formats.contains(preferred_format_pair()) {
        preferred_format_pair()
    } else {
        formats[0]
    }
}

/// The mode present-mode selection returns: mailbox when the list holds it,
/// first-in-first-out otherwise.
pub open spec fn chosen_present_mode(modes: Seq<PresentMode>) -> PresentMode {
    if modes.contains(PresentMode::Mailbox) {
        PresentMode::Mailbox
    } else {
        PresentMode::Fifo
    }
}

/// The extent that extent selection returns: the driver's definite current
/// extent when one is reported, otherwise the window's requested size
/// clamped per axis into the reported bounds.
pub open spec fn chosen_extent(capabilities: SurfaceCapabilities, window_extent: Extent) -> Extent {
    match capabilities.current_extent {
        Some(extent) => extent,
        None => Extent {
            width: crate::clamp_u32(
                window_extent.width,
                capabilities.min_image_extent.width,
                capabilities.max_image_extent.width,
            ),
            height: crate::clamp_u32(
                window_extent.height,
                capabilities.min_image_extent.height,
                capabilities.max_image_extent.height,
            ),
        },
    }
}

/// The image count negotiation targets a double buffer of two images,
/// clamped into the reported bounds, or floored at the reported minimum
/// when no maximum is reported.
pub open spec fn negotiated_image_count(capabilities: SurfaceCapabilities) -> u32 {
    match capabilities.max_image_count {
        None => if capabilities.min_image_count >= 2 {
            capabilities.min_image_count
        } else {
            2
        },
        Some(limit) => crate::clamp_u32(2, capabilities.min_image_count, limit),
    }
}

/// The sharing mode for the swapchain images: exclusive ownership when one
/// family serves both roles, concurrent sharing across the two families
/// otherwise.
pub open spec fn chosen_sharing_mode(indices: QueueFamilyIndices) -> SharingMode {
    if indices.graphics_family == indices.present_family {
        SharingMode::Exclusive
    } else {
        SharingMode::Concurrent(indices.graphics_family->0, indices.present_family->0)
    }
}

/// The full negotiation outcome for one device+surface pair and one window
/// size.
pub open spec fn negotiated_swap_chain(
    support: SwapChainSupport,
    indices: QueueFamilyIndices,
    window_extent: Extent,
) -> SwapchainNegotiationResult {
    SwapchainNegotiationResult {
        min_image_count: negotiated_image_count(support.capabilities),
        format: chosen_format_pair(support.formats@).0,
        color_space: chosen_format_pair(support.formats@).1,
        present_mode: chosen_present_mode(support.present_modes@),
        extent: chosen_extent(support.capabilities, window_extent),
        sharing: chosen_sharing_mode(indices),
    }
}

/// Prefer an 8-bit BGRA format paired with non-linear sRGB; fall back to
/// the first reported pair when the preferred one is absent.
pub fn select_swap_surface_format(formats: &Vec<(Format, ColorSpace)>) -> (r: (Format, ColorSpace))
    requires
        formats@.len() > 0,
    ensures
        r == chosen_format_pair(formats@),
{
    let mut i: usize = 0;
    while i < formats.len()
        invariant
            0 <= i <= formats@.len(),
            forall|j: int| 0 <= j < i ==> formats@[j] != preferred_format_pair(),
        decreases formats@.len() - i,
    {
        let pair = formats[i];
        if pair.0 == Format::B8G8R8A8Srgb && pair.1 == ColorSpace::SrgbNonLinear {
            assert(formats@.contains(preferred_format_pair()));
            return pair;
        }
        i = i + 1;
    }
    assert(!formats@.contains(preferred_format_pair()));
    formats[0]
}

/// Prefer the low-latency mailbox mode; fall back to the always-available
/// first-in-first-out mode.
pub fn select_swap_present_mode(present_modes: &Vec<PresentMode>) -> (r: PresentMode)
    ensures
        r == chosen_present_mode(present_modes@),
{
    let mut i: usize = 0;
    while i < present_modes.len()
        invariant
            0 <= i <= present_modes@.len(),
            forall|j: int| 0 <= j < i ==> present_modes@[j] != PresentMode::Mailbox,
        decreases present_modes@.len() - i,
    {
        if present_modes[i] == PresentMode::Mailbox {
            assert(present_modes@.contains(PresentMode::Mailbox));
            return PresentMode::Mailbox;
        }
        i = i + 1;
    }
    assert(!present_modes@.contains(PresentMode::Mailbox));
    PresentMode::Fifo
}

/// Clamp one axis of a requested extent into the driver-reported bounds.
fn clamp_axis(x: u32, lo: u32, hi: u32) -> (r: u32)
    requires
        lo <= hi,
    ensures
        r == crate::clamp_u32(x, lo, hi),
{
    if x < lo {
        lo
    } else if x > hi {
        hi
    } else {
        x
    }
}

/// Use the driver's definite current extent when reported; otherwise clamp
/// the window's requested size into the reported bounds, each axis
/// independently.
pub fn select_swap_extent(capabilities: &SurfaceCapabilities, window_extent: Extent) -> (r: Extent)
    requires
        capabilities.well_formed(),
    ensures
        r == chosen_extent(*capabilities, window_extent),
{
    match capabilities.current_extent {
        Some(extent) => extent,
        None => Extent {
            width: clamp_axis(
                window_extent.width,
                capabilities.min_image_extent.width,
                capabilities.max_image_extent.width,
            ),
            height: clamp_axis(
                window_extent.height,
                capabilities.min_image_extent.height,
                capabilities.max_image_extent.height,
            ),
        },
    }
}

/// Negotiate the number of swapchain images.
pub fn select_image_count(capabilities: &SurfaceCapabilities) -> (r: u32)
    requires
        capabilities.well_formed(),
    ensures
        r == negotiated_image_count(*capabilities),
{
    match capabilities.max_image_count {
        None => {
            if capabilities.min_image_count >= 2 {
                capabilities.min_image_count
            } else {
                2
            }
        },
        Some(limit) => clamp_axis(2, capabilities.min_image_count, limit),
    }
}

/// Decide how the swapchain images are shared between the graphics and the
/// present queue family: exclusive when both roles resolve to one family,
/// concurrent across the two families otherwise.
pub fn select_sharing_mode(indices: &QueueFamilyIndices) -> (r: SharingMode)
    requires
        indices.complete(),
    ensures
        r == chosen_sharing_mode(*indices),
{
    let graphics = indices.graphics_family.unwrap();
    let present = indices.present_family.unwrap();
    if graphics == present {
        SharingMode::Exclusive
    } else {
        SharingMode::Concurrent(graphics, present)
    }
}

/// Derive the full swapchain negotiation result for one device+surface
/// pair: format and color space, present mode, extent, image count and
/// sharing mode.
pub fn create_swap_chain(
    support: &SwapChainSupport,
    indices: &QueueFamilyIndices,
    window_extent: Extent,
) -> (r: SwapchainNegotiationResult)
    requires
        support.capabilities.well_formed(),
        support.formats@.len() > 0,
        indices.complete(),
    ensures
        r == negotiated_swap_chain(*support, *indices, window_extent),
{
    let surface_format = select_swap_surface_format(&support.formats);
    let present_mode = select_swap_present_mode(&support.present_modes);
    let extent = select_swap_extent(&support.capabilities, window_extent);
    let min_image_count = select_image_count(&support.capabilities);
    let sharing = select_sharing_mode(indices);
    SwapchainNegotiationResult {
        min_image_count,
        format: surface_format.0,
        color_space: surface_format.1,
        present_mode,
        extent,
        sharing,
    }
}

} // verus!
