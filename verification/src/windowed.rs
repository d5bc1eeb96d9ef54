//! Swapchain negotiation: surface format, present mode, image count and
//! extent, applied once at construction. Formats, color spaces and present
//! modes are carried as the raw code words the driver reports.

use vstd::prelude::*;

verus! {

/// Raw format code of 8-bit BGRA with sRGB encoding.
pub const FORMAT_B8G8R8A8_SRGB: i32 = 50;

/// Raw color-space code of the sRGB-nonlinear color space.
pub const COLOR_SPACE_SRGB_NONLINEAR: i32 = 0;

/// Raw present-mode code of mailbox presentation (low latency, no tearing,
/// frames dropped under backpressure).
pub const PRESENT_MODE_MAILBOX: i32 = 1;

/// Raw present-mode code of FIFO presentation (strict vsync queue, always
/// supported).
pub const PRESENT_MODE_FIFO: i32 = 2;

/// Sentinel width by which a surface reports an undefined current extent.
pub const EXTENT_UNDEFINED: u32 = 0xffff_ffff;

/// One surface format the driver reports: a pixel format paired with a
/// color space.
#[derive(Clone, Copy, Debug, PartialEq, Eq, Structural)]
pub struct SurfaceFormat {
    pub format: i32,
    pub color_space: i32,
}

/// A two-dimensional size in pixels.
#[derive(Clone, Copy, Debug, PartialEq, Eq, Structural)]
pub struct Extent2d {
    pub width: u32,
    pub height: u32,
}

/// What the surface reports about itself: image count bounds (a maximum of
/// zero means unlimited), the current extent (possibly the undefined
/// sentinel), and the extent bounds for when it is undefined.
#[derive(Clone, Copy, Debug, PartialEq, Eq, Structural)]
pub struct SurfaceCapabilities {
    pub min_image_count: u32,
    pub max_image_count: u32,
    pub current_extent: Extent2d,
    pub min_image_extent: Extent2d,
    pub max_image_extent: Extent2d,
}

/// Capability negotiation with the surface failed; fatal, with no fallback.
#[derive(Clone, Copy, Debug, PartialEq, Eq, Structural)]
pub enum SwapchainError {
    NoSurfaceFormats,
    NoPresentModes,
}

/// The preferred surface format: 8-bit BGRA sRGB with the sRGB-nonlinear
/// color space.
pub open spec fn is_preferred_format(f: SurfaceFormat) -> bool {
    f.format == FORMAT_B8G8R8A8_SRGB && f.color_space == COLOR_SPACE_SRGB_NONLINEAR
}

/// The first preferred format at or after `i`, if any.
pub open spec fn spec_first_preferred(formats: Seq<SurfaceFormat>, i: int) -> Option<SurfaceFormat>
    decreases formats.len() - i,
{
    if i < 0 || i >= formats.len() {
        None
    } else if is_preferred_format(formats[i]) {
        Some(formats[i])
    } else {
        spec_first_preferred(formats, i + 1)
    }
}

/// The negotiated format: the first preferred format, else the first format
/// the surface reports.
pub open spec fn spec_choose_surface_format(formats: Seq<SurfaceFormat>) -> SurfaceFormat
    recommends
        formats.len() > 0,
{
    match spec_first_preferred(formats, 0) {
        Some(f) => f,
        None => formats[0],
    }
}

/// Picks the surface format: the preferred 8-bit BGRA sRGB pair when the
/// surface offers it, else the first reported format; an empty format list
/// is a fatal negotiation failure.
pub fn choose_surface_format(formats: &Vec<SurfaceFormat>) -> (r: Result<
    SurfaceFormat,
    SwapchainError,
>)
    ensures
        formats@.len() == 0 <==> r == Err::<SurfaceFormat, SwapchainError>(
            SwapchainError::NoSurfaceFormats,
        ),
        match r {
            Ok(f) => {
                &&& f == spec_choose_surface_format(formats@)
                &&& (exists|i: int|
                    0 <= i < formats@.len() && is_preferred_format(formats@[i]))
                    ==> is_preferred_format(f)
                &&& (forall|i: int|
                    0 <= i < formats@.len() ==> !is_preferred_format(formats@[i]))
                    ==> f == formats@[0]
            },
            Err(e) => e == SwapchainError::NoSurfaceFormats,
        },
{
    if formats.len() == 0 {
        return Err(SwapchainError::NoSurfaceFormats);
    }
    let mut i: usize = 0;
    while i < formats.len()
        invariant
            i <= formats@.len(),
            spec_first_preferred(formats@, 0) == spec_first_preferred(formats@, i as int),
            forall|j: int| 0 <= j < i ==> !is_preferred_format(formats@[j]),
        decreases formats@.len() - i,
    {
        let f = formats[i];
        if f.format == FORMAT_B8G8R8A8_SRGB && f.color_space == COLOR_SPACE_SRGB_NONLINEAR {
            return Ok(f);
        }
        i += 1;
    }
    Ok(formats[0])
}

/// The negotiated present mode: mailbox when offered, else FIFO.
pub open spec fn spec_choose_present_mode(modes: Seq<i32>) -> i32 {
    if modes.contains(PRESENT_MODE_MAILBOX) {
        PRESENT_MODE_MAILBOX
    } else {
        PRESENT_MODE_FIFO
    }
}

/// Picks the present mode: mailbox when the surface offers it, else the
/// always-supported FIFO; an empty mode list is a fatal negotiation
/// failure.
pub fn choose_present_mode(modes: &Vec<i32>) -> (r: Result<i32, SwapchainError>)
    ensures
        modes@.len() == 0 <==> r == Err::<i32, SwapchainError>(SwapchainError::NoPresentModes),
        match r {
            Ok(m) => m == spec_choose_present_mode(modes@),
            Err(e) => e == SwapchainError::NoPresentModes,
        },
{
    if modes.len() == 0 {
        return Err(SwapchainError::NoPresentModes);
    }
    let mut i: usize = 0;
    while i < modes.len()
        invariant
            i <= modes@.len(),
            forall|j: int| 0 <= j < i ==> modes@[j] != PRESENT_MODE_MAILBOX,
        decreases modes@.len() - i,
    {
        if modes[i] == PRESENT_MODE_MAILBOX {
            return Ok(PRESENT_MODE_MAILBOX);
        }
        i += 1;
    }
    Ok(PRESENT_MODE_FIFO)
}

/// The negotiated image count: one more than the minimum, clamped not to
/// exceed the larger of the reported maximum and that desired count, which
/// guards against a surface reporting an unlimited (zero) maximum.
pub open spec fn spec_choose_image_count(caps: SurfaceCapabilities) -> int {
    let desired = caps.min_image_count + 1;
    let bound = if caps.max_image_count > desired {
        caps.max_image_count as int
    } else {
        desired
    };
    if desired < bound {
        desired
    } else {
        bound
    }
}

/// Picks the number of swapchain images to request.
pub fn choose_image_count(caps: &SurfaceCapabilities) -> (r: u32)
    requires
        caps.min_image_count < u32::MAX,
    ensures
        r == spec_choose_image_count(*caps),
        r == caps.min_image_count + 1,
{
    let desired = caps.min_image_count + 1;
    let bound = if caps.max_image_count > desired {
        caps.max_image_count
    } else {
        desired
    };
    if desired < bound {
        desired
    } else {
        bound
    }
}

/// `v` clamped into `[lo, hi]`.
pub open spec fn spec_clamp(v: u32, lo: u32, hi: u32) -> u32
    recommends
        lo <= hi,
{
    if v < lo {
        lo
    } else if v > hi {
        hi
    } else {
        v
    }
}

/// The negotiated extent: the surface's current extent verbatim, unless the
/// surface reports the undefined sentinel, in which case the requested size
/// clamped into the surface's extent bounds.
pub open spec fn spec_choose_extent(
    caps: SurfaceCapabilities,
    requested_width: u32,
    requested_height: u32,
) -> Extent2d {
    if caps.current_extent.width != EXTENT_UNDEFINED {
        caps.current_extent
    } else {
        Extent2d {
            width: spec_clamp(
                requested_width,
                caps.min_image_extent.width,
                caps.max_image_extent.width,
            ),
            height: spec_clamp(
                requested_height,
                caps.min_image_extent.height,
                caps.max_image_extent.height,
            ),
        }
    }
}

/// Picks the swapchain extent from the surface capabilities and the
/// caller's requested size.
pub fn choose_extent(
    caps: &SurfaceCapabilities,
    requested_width: u32,
    requested_height: u32,
) -> (r: Extent2d)
    requires
        caps.current_extent.width == EXTENT_UNDEFINED ==> {
            &&& caps.min_image_extent.width <= caps.max_image_extent.width
            &&& caps.min_image_extent.height <= caps.max_image_extent.height
        },
    ensures
        r == spec_choose_extent(*caps, requested_width, requested_height),
{
    if caps.current_extent.width != EXTENT_UNDEFINED {
        caps.current_extent
    } else {
        let width = if requested_width < caps.min_image_extent.width {
            caps.min_image_extent.width
        } else if requested_width > caps.max_image_extent.width {
            caps.max_image_extent.width
        } else {
            requested_width
        };
        let height = if requested_height < caps.min_image_extent.height {
            caps.min_image_extent.height
        } else if requested_height > caps.max_image_extent.height {
            caps.max_image_extent.height
        } else {
            requested_height
        };
        Extent2d { width, height }
    }
}

/// The outcome of swapchain negotiation, consumed by chain creation.
#[derive(Clone, Copy, Debug, PartialEq, Eq, Structural)]
pub struct SwapchainConfig {
    pub surface_format: SurfaceFormat,
    pub present_mode: i32,
    pub image_count: u32,
    pub extent: Extent2d,
}

/// Negotiates format, present mode, image count and extent with the
/// surface, once; there is no renegotiation path. Fails exactly when the
/// surface reports no formats or no present modes.
pub fn negotiate_swapchain(
    caps: &SurfaceCapabilities,
    formats: &Vec<SurfaceFormat>,
    present_modes: &Vec<i32>,
    requested_width: u32,
    requested_height: u32,
) -> (r: Result<SwapchainConfig, SwapchainError>)
    requires
        caps.min_image_count < u32::MAX,
        caps.current_extent.width == EXTENT_UNDEFINED ==> {
            &&& caps.min_image_extent.width <= caps.max_image_extent.width
            &&& caps.min_image_extent.height <= caps.max_image_extent.height
        },
    ensures
        match r {
            Ok(config) => {
                &&& formats@.len() > 0
                &&& present_modes@.len() > 0
                &&& config.surface_format == spec_choose_surface_format(formats@)
                &&& config.present_mode == spec_choose_present_mode(present_modes@)
                &&& config.image_count == spec_choose_image_count(*caps)
                &&& config.extent == spec_choose_extent(*caps, requested_width, requested_height)
            },
            Err(SwapchainError::NoSurfaceFormats) => formats@.len() == 0,
            Err(SwapchainError::NoPresentModes) => formats@.len() > 0
                && present_modes@.len() == 0,
        },
        r is Ok <==> formats@.len() > 0 && present_modes@.len() > 0,
{
    let surface_format = match choose_surface_format(formats) {
        Ok(f) => f,
        Err(e) => {
            return Err(e);
        },
    };
    let present_mode = match choose_present_mode(present_modes) {
        Ok(m) => m,
        Err(e) => {
            return Err(e);
        },
    };
    let image_count = choose_image_count(caps);
    let extent = choose_extent(caps, requested_width, requested_height);
    Ok(SwapchainConfig { surface_format, present_mode, image_count, extent })
}

} // verus!
