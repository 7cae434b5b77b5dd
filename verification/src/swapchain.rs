//! Swapchain configuration: deriving format, present mode, extent, image
//! count and sharing mode from a snapshot of the surface-capability query.
//!
//! The raw query and the swapchain creation call live outside this crate;
//! they hand in plain values (format and present-mode codes as the graphics
//! API reports them, pixel sizes, counts) and take the chosen configuration
//! back.

use vstd::prelude::*;

use crate::devices::QueueFamilyIndices;

verus! {

/// Format code for 8-bit BGRA with sRGB encoding, as the graphics API
/// numbers it.
pub const FORMAT_B8G8R8A8_SRGB: i32 = 50;

/// Color-space code for sRGB nonlinear, as the graphics API numbers it.
pub const COLOR_SPACE_SRGB_NONLINEAR: i32 = 0;

/// Present-mode code for mailbox (low-latency triple buffering).
pub const PRESENT_MODE_MAILBOX: i32 = 1;

/// Present-mode code for FIFO, the only mode the API guarantees to exist.
pub const PRESENT_MODE_FIFO: i32 = 2;

/// Sentinel width in `current_extent` meaning "match the window size".
pub const EXTENT_MATCH_WINDOW: u32 = 0xFFFF_FFFF;

/// A two-dimensional pixel size.
#[derive(Clone, Copy, Debug, PartialEq, Eq, Structural)]
pub struct Extent2D {
    pub width: u32,
    pub height: u32,
}

impl Extent2D {
    /// A zero-area extent comes from a minimized window; frame submission
    /// is suppressed for it.
    pub fn is_zero(&self) -> (r: bool)
        ensures
            r == (self.width == 0 || self.height == 0),
    {
        self.width == 0 || self.height == 0
    }
}

/// A surface format: a pixel-format code paired with a color-space code.
#[derive(Clone, Copy, Debug, PartialEq, Eq, Structural)]
pub struct SurfaceFormat {
    pub format: i32,
    pub color_space: i32,
}

/// The capability snapshot a surface reports for swapchain creation.
#[derive(Clone, Copy, Debug, PartialEq, Eq, Structural)]
pub struct SurfaceCapabilities {
    pub min_image_count: u32,
    pub max_image_count: u32,
    pub current_extent: Extent2D,
    pub min_image_extent: Extent2D,
    pub max_image_extent: Extent2D,
}

/// Everything one capability query reports: capabilities, the available
/// surface formats, and the available present-mode codes.
#[derive(Clone, Debug)]
pub struct SwapchainSupport {
    pub capabilities: SurfaceCapabilities,
    pub formats: Vec<SurfaceFormat>,
    pub present_modes: Vec<i32>,
}

/// How swapchain images are shared between the graphics and presentation
/// queue families.
#[derive(Clone, Copy, Debug, PartialEq, Eq, Structural)]
pub enum SharingMode {
    Exclusive,
    Concurrent,
}

/// The preferred format: 8-bit BGRA/sRGB with sRGB-nonlinear color space.
pub open spec fn is_preferred_format(f: SurfaceFormat) -> bool {
    f.format == FORMAT_B8G8R8A8_SRGB && f.color_space == COLOR_SPACE_SRGB_NONLINEAR
}

/// The format selection rule: the preferred format when the list offers it,
/// otherwise the first listed format.
pub open spec fn spec_selected_format(formats: Seq<SurfaceFormat>) -> SurfaceFormat
    recommends
        formats.len() > 0,
{
    if exists|i: int| 0 <= i < formats.len() && is_preferred_format(formats[i]) {
        SurfaceFormat { format: FORMAT_B8G8R8A8_SRGB, color_space: COLOR_SPACE_SRGB_NONLINEAR }
    } else {
        formats[0]
    }
}

/// The present-mode selection rule: mailbox when offered, otherwise FIFO.
pub open spec fn spec_selected_present_mode(modes: Seq<i32>) -> i32 {
    if modes.contains(PRESENT_MODE_MAILBOX) {
        PRESENT_MODE_MAILBOX
    } else {
        PRESENT_MODE_FIFO
    }
}

/// `x` clamped into `[lo, hi]`.
pub open spec fn spec_clamped(x: u32, lo: u32, hi: u32) -> u32
    recommends
        lo <= hi,
{
    if x < lo {
        lo
    } else if x > hi {
        hi
    } else {
        x
    }
}

/// The extent selection rule: the surface-reported extent verbatim, unless
/// its width carries the "match the window" sentinel, in which case the
/// window size clamped into the reported bounds.
pub open spec fn spec_selected_extent(caps: SurfaceCapabilities, window: Extent2D) -> Extent2D {
    if caps.current_extent.width != EXTENT_MATCH_WINDOW {
        caps.current_extent
    } else {
        Extent2D {
            width: spec_clamped(window.width, caps.min_image_extent.width, caps.max_image_extent.width),
            height: spec_clamped(window.height, caps.min_image_extent.height, caps.max_image_extent.height),
        }
    }
}

/// The image-count rule: one more than the reported minimum, clamped to the
/// reported maximum when that maximum is nonzero (zero means unbounded).
pub open spec fn spec_selected_image_count(caps: SurfaceCapabilities) -> u32
    recommends
        caps.min_image_count < u32::MAX,
{
    let preferred = (caps.min_image_count + 1) as u32;
    if caps.max_image_count != 0 && preferred > caps.max_image_count {
        caps.max_image_count
    } else {
        preferred
    }
}

impl SwapchainSupport {
    /// Selects the surface format: the 8-bit BGRA/sRGB + sRGB-nonlinear
    /// entry when available, otherwise the first listed format.
    pub fn select_swapchain_formats(&self) -> (r: SurfaceFormat)
        requires
            self.formats@.len() > 0,
        ensures
            r == spec_selected_format(self.formats@),
    {
        let n = self.formats.len();
        let mut i: usize = 0;
        while i < n
            invariant
                n == self.formats@.len(),
                0 <= i <= n,
                forall|j: int| 0 <= j < i ==> !is_preferred_format(self.formats@[j]),
            decreases n - i,
        {
            let f = self.formats[i];
            if f.format == FORMAT_B8G8R8A8_SRGB && f.color_space == COLOR_SPACE_SRGB_NONLINEAR {
                return f;
            }
            i = i + 1;
        }
        self.formats[0]
    }

    /// Selects the present mode: mailbox when offered, otherwise FIFO.
    pub fn select_swapchain_present_mode(&self) -> (r: i32)
        ensures
            r == spec_selected_present_mode(self.present_modes@),
    {
        let n = self.present_modes.len();
        let mut i: usize = 0;
        while i < n
            invariant
                n == self.present_modes@.len(),
                0 <= i <= n,
                forall|j: int| 0 <= j < i ==> self.present_modes@[j] != PRESENT_MODE_MAILBOX,
            decreases n - i,
        {
            if self.present_modes[i] == PRESENT_MODE_MAILBOX {
                assert(self.present_modes@.contains(PRESENT_MODE_MAILBOX));
                return PRESENT_MODE_MAILBOX;
            }
            i = i + 1;
        }
        assert(!self.present_modes@.contains(PRESENT_MODE_MAILBOX));
        PRESENT_MODE_FIFO
    }

    /// Selects the swapchain extent from the capability snapshot and the
    /// window's current pixel size.
    pub fn select_swapchain_extent(&self, window: Extent2D) -> (r: Extent2D)
        ensures
            r == spec_selected_extent(self.capabilities, window),
    {
        let caps = &self.capabilities;
        if caps.current_extent.width != EXTENT_MATCH_WINDOW {
            return caps.current_extent;
        }
        Extent2D {
            width: clamp_u32(window.width, caps.min_image_extent.width, caps.max_image_extent.width),
            height: clamp_u32(window.height, caps.min_image_extent.height, caps.max_image_extent.height),
        }
    }

    /// Selects how many images to request for the swapchain.
    pub fn select_image_count(&self) -> (r: u32)
        requires
            self.capabilities.min_image_count < u32::MAX,
        ensures
            r == spec_selected_image_count(self.capabilities),
    {
        let preferred = self.capabilities.min_image_count + 1;
        let max = self.capabilities.max_image_count;
        if max != 0 && preferred > max {
            max
        } else {
            preferred
        }
    }
}

/// `x` clamped into `[lo, hi]`.
pub fn clamp_u32(x: u32, lo: u32, hi: u32) -> (r: u32)
    ensures
        r == spec_clamped(x, lo, hi),
{
    if x < lo {
        lo
    } else if x > hi {
        hi
    } else {
        x
    }
}

/// The configuration one swapchain generation is built with, derived once
/// per (re)build from a capability query; immutable for that generation's
/// lifetime.
#[derive(Clone, Debug)]
pub struct SwapchainConfig {
    pub support: SwapchainSupport,
    pub capabilities: SurfaceCapabilities,
    pub format: SurfaceFormat,
    pub present_mode: i32,
    pub extent: Extent2D,
    pub image_count: u32,
    pub sharing_mode: SharingMode,
    pub queue_family_indices: Vec<u32>,
}

impl SwapchainConfig {
    /// Derives a full configuration from one capability query, the window's
    /// current pixel size, and the chosen queue families: every field is a
    /// pure function of these inputs.
    pub fn new(support: SwapchainSupport, window: Extent2D, queue_family: &QueueFamilyIndices) -> (r: Self)
        requires
            support.formats@.len() > 0,
            support.capabilities.min_image_count < u32::MAX,
        ensures
            r.support == support,
            r.capabilities == support.capabilities,
            r.format == spec_selected_format(support.formats@),
            r.present_mode == spec_selected_present_mode(support.present_modes@),
            r.extent == spec_selected_extent(support.capabilities, window),
            r.image_count == spec_selected_image_count(support.capabilities),
            r.sharing_mode == (if queue_family.graphics != queue_family.presentation {
                SharingMode::Concurrent
            } else {
                SharingMode::Exclusive
            }),
            queue_family.graphics != queue_family.presentation ==> r.queue_family_indices@ =~= seq![
                queue_family.graphics,
                queue_family.presentation,
            ],
            queue_family.graphics == queue_family.presentation ==> r.queue_family_indices@ =~= Seq::<
                u32,
            >::empty(),
    {
        let format = support.select_swapchain_formats();
        let present_mode = support.select_swapchain_present_mode();
        let extent = support.select_swapchain_extent(window);
        let image_count = support.select_image_count();
        let concurrent = queue_family.graphics != queue_family.presentation;
        let sharing_mode = if concurrent {
            SharingMode::Concurrent
        } else {
            SharingMode::Exclusive
        };
        let mut queue_family_indices: Vec<u32> = Vec::new();
        if concurrent {
            queue_family_indices.push(queue_family.graphics);
            queue_family_indices.push(queue_family.presentation);
        }
        let capabilities = support.capabilities;
        SwapchainConfig {
            support,
            capabilities,
            format,
            present_mode,
            extent,
            image_count,
            sharing_mode,
            queue_family_indices,
        }
    }
}

} // verus!
