//! What a surface can do on a device, and the swapchain settings derived from it.
use vstd::prelude::*;

verus! {

/// Vulkan's number for the pixel format with 8-bit blue, green, red and alpha
/// channels, each an unsigned normalised value.
pub const FORMAT_B8G8R8A8_UNORM: u32 = 44;

/// Vulkan's number for the same channel layout with sRGB-encoded colours.
pub const FORMAT_B8G8R8A8_SRGB: u32 = 50;

/// Vulkan's number for the non-linear sRGB colour space.
pub const COLOR_SPACE_SRGB_NONLINEAR: u32 = 0;

/// A pixel format together with the colour space its values are read in, both
/// by their Vulkan numbers.
#[derive(Clone, Copy, PartialEq, Eq, Debug, Structural)]
pub struct SurfaceFormat {
    pub format: u32,
    pub color_space: u32,
}

/// How finished images reach the screen.
#[derive(Clone, Copy, PartialEq, Eq, Debug, Structural)]
pub enum PresentMode {
    /// Shown at once; may tear.
    Immediate,
    /// One waiting image, replaced by any newer one, shown at the next blank.
    Mailbox,
    /// A queue of images, one shown per blank.
    Fifo,
    /// As `Fifo`, but shown at once when the queue ran empty.
    Relaxed,
}

/// The present modes a surface offers.
#[derive(Clone, Copy, PartialEq, Eq, Debug, Structural)]
pub struct SupportedPresentModes {
    pub immediate: bool,
    pub mailbox: bool,
    pub fifo: bool,
    pub relaxed: bool,
    pub shared_demand: bool,
    pub shared_continuous: bool,
}

/// What a surface allows of a swapchain on one physical device.
#[derive(Debug)]
pub struct Capabilities {
    /// Fewest images a swapchain may hold.
    pub min_image_count: u32,
    /// Most images a swapchain may hold, where the surface sets a limit.
    pub max_image_count: Option<u32>,
    /// Width and height of the surface, where the surface fixes them.
    pub current_extent: Option<[u32; 2]>,
    /// Smallest width and height of a swapchain image.
    pub min_image_extent: [u32; 2],
    /// Largest width and height of a swapchain image.
    pub max_image_extent: [u32; 2],
    /// Formats a swapchain image may have.
    pub supported_formats: Vec<SurfaceFormat>,
    /// Present modes the surface offers.
    pub present_modes: SupportedPresentModes,
}

/// A `Capabilities` with its list as a sequence.
pub struct CapabilitiesView {
    pub min_image_count: u32,
    pub max_image_count: Option<u32>,
    pub current_extent: Option<[u32; 2]>,
    pub min_image_extent: [u32; 2],
    pub max_image_extent: [u32; 2],
    pub supported_formats: Seq<SurfaceFormat>,
    pub present_modes: SupportedPresentModes,
}

impl View for Capabilities {
    type V = CapabilitiesView;

    open spec fn view(&self) -> CapabilitiesView {
        CapabilitiesView {
            min_image_count: self.min_image_count,
            max_image_count: self.max_image_count,
            current_extent: self.current_extent,
            min_image_extent: self.min_image_extent,
            max_image_extent: self.max_image_extent,
            supported_formats: self.supported_formats@,
            present_modes: self.present_modes,
        }
    }
}

impl Clone for Capabilities {
    fn clone(&self) -> (copy: Capabilities)
        ensures
            copy@ == self@,
    {
        Capabilities {
            min_image_count: self.min_image_count,
            max_image_count: self.max_image_count,
            current_extent: self.current_extent,
            min_image_extent: self.min_image_extent,
            max_image_extent: self.max_image_extent,
            supported_formats: self.supported_formats.clone(),
            present_modes: self.present_modes,
        }
    }
}

/// `value` moved into `low ..= high`; `low` wins where the bounds cross.
pub open spec fn clamp_into(value: u32, low: u32, high: u32) -> u32 {
    let capped = if high < value { high } else { value };
    if capped < low { low } else { capped }
}

impl CapabilitiesView {
    /// The surface's own extent where it has one, else the window's size with
    /// each component moved into the bounds the surface gives.
    pub open spec fn extent(self, actual_width: u32, actual_height: u32) -> (u32, u32) {
        match self.current_extent {
            Some(extent) => (extent[0], extent[1]),
            None => (
                clamp_into(actual_width, self.min_image_extent[0], self.max_image_extent[0]),
                clamp_into(actual_height, self.min_image_extent[1], self.max_image_extent[1]),
            ),
        }
    }

    /// One more than the fewest the surface allows, but no more than its limit.
    pub open spec fn image_count(self) -> int {
        let wanted = self.min_image_count + 1;
        match self.max_image_count {
            Some(limit) => if limit < wanted { limit as int } else { wanted },
            None => wanted,
        }
    }

    /// The image count fits the 32 bits the driver takes it in.
    pub open spec fn image_count_fits(self) -> bool {
        self.image_count() <= u32::MAX
    }
}

impl Capabilities {
    /// Whether the image count fits the 32 bits the driver takes it in. It
    /// does unless the surface allows no fewer images than 32 bits can count
    /// and sets no limit.
    pub fn image_count_fits(&self) -> (fits: bool)
        ensures
            fits == self@.image_count_fits(),
    {
        self.max_image_count.is_some() || self.min_image_count < u32::MAX
    }
}

/// The swapchain settings that follow from a surface's capabilities.
pub trait CapabilitiesExt {
    /// Width and height of the swapchain's images for a window of the given size
    /// in physical pixels.
    spec fn extent(&self, actual_width: u32, actual_height: u32) -> (u32, u32);

    /// Number of images of the swapchain.
    spec fn image_count(&self) -> int;

    fn choose_extent(&self, actual_width: u32, actual_height: u32) -> (chosen: [u32; 2])
        ensures
            (chosen[0], chosen[1]) == self.extent(actual_width, actual_height),
    ;

    /// Asks that the number fit 32 bits.
    fn choose_image_count(&self) -> (chosen: u32)
        requires
            self.image_count() <= u32::MAX,
        ensures
            chosen == self.image_count(),
    ;
}

impl CapabilitiesExt for Capabilities {
    open spec fn extent(&self, actual_width: u32, actual_height: u32) -> (u32, u32) {
        self@.extent(actual_width, actual_height)
    }

    open spec fn image_count(&self) -> int {
        self@.image_count()
    }

    fn choose_extent(&self, actual_width: u32, actual_height: u32) -> (chosen: [u32; 2]) {
        match self.current_extent {
            Some(extent) => extent,
            None => {
                let width = clamp(actual_width, self.min_image_extent[0], self.max_image_extent[0]);
                let height = clamp(actual_height, self.min_image_extent[1], self.max_image_extent[1]);
                [width, height]
            },
        }
    }

    fn choose_image_count(&self) -> (chosen: u32) {
        match self.max_image_count {
            Some(limit) => if limit <= self.min_image_count {
                limit
            } else {
                self.min_image_count + 1
            },
            None => self.min_image_count + 1,
        }
    }
}

fn clamp(value: u32, low: u32, high: u32) -> (clamped: u32)
    ensures
        clamped == clamp_into(value, low, high),
{
    let capped = if high < value { high } else { value };
    if capped < low { low } else { capped }
}

/// The present mode to ask for among those a surface offers.
pub trait SupportedPresentModesExt {
    spec fn preferred(&self) -> Option<PresentMode>;

    fn choose_present_mode(&self) -> (chosen: Option<PresentMode>)
        ensures
            chosen == self.preferred(),
    ;
}

impl SupportedPresentModesExt for SupportedPresentModes {
    /// Mailbox before immediate before FIFO; none where the surface offers none
    /// of the three.
    open spec fn preferred(&self) -> Option<PresentMode> {
        if self.mailbox {
            Some(PresentMode::Mailbox)
        } else if self.immediate {
            Some(PresentMode::Immediate)
        } else if self.fifo {
            Some(PresentMode::Fifo)
        } else {
            None
        }
    }

    fn choose_present_mode(&self) -> (chosen: Option<PresentMode>) {
        if self.mailbox {
            Some(PresentMode::Mailbox)
        } else if self.immediate {
            Some(PresentMode::Immediate)
        } else if self.fifo {
            Some(PresentMode::Fifo)
        } else {
            None
        }
    }
}

impl PresentMode {
    /// Place among the present modes this backend asks for, the most wanted
    /// first; none for a mode it never asks for.
    pub open spec fn preference(self) -> Option<int> {
        match self {
            PresentMode::Mailbox => Some(0),
            PresentMode::Immediate => Some(1),
            PresentMode::Fifo => Some(2),
            PresentMode::Relaxed => None,
        }
    }
}

impl SupportedPresentModes {
    /// Whether the surface offers `mode`.
    pub open spec fn offers(self, mode: PresentMode) -> bool {
        match mode {
            PresentMode::Immediate => self.immediate,
            PresentMode::Mailbox => self.mailbox,
            PresentMode::Fifo => self.fifo,
            PresentMode::Relaxed => self.relaxed,
        }
    }
}

/// The present mode chosen is offered and asked for, and no mode that is
/// offered is wanted more; none is chosen exactly when the surface offers none
/// of the modes asked for.
pub proof fn lemma_present_mode_priority(modes: SupportedPresentModes)
    ensures
        match modes.preferred() {
            Some(chosen) => modes.offers(chosen) && chosen.preference().is_some() && forall|
                other: PresentMode,
            |
                modes.offers(other) && other.preference().is_some() ==> chosen.preference().unwrap()
                    <= other.preference().unwrap(),
            None => forall|other: PresentMode|
                modes.offers(other) ==> other.preference().is_none(),
        },
{
}

/// The image count is above the surface's minimum by one at most, and within
/// the surface's limit where it has one; it is no less than the minimum
/// where the limit is not below the minimum.
pub proof fn lemma_image_count_bounds(capabilities: CapabilitiesView)
    ensures
        capabilities.image_count() <= capabilities.min_image_count + 1,
        capabilities.max_image_count matches Some(limit) ==> capabilities.image_count() <= limit,
        (capabilities.max_image_count matches Some(limit) ==> capabilities.min_image_count
            <= limit) ==> capabilities.min_image_count <= capabilities.image_count(),
{
}

/// Where the surface fixes no extent and its bounds do not cross, each
/// component of the extent lies within them, and is the window's own where
/// that already does.
pub proof fn lemma_extent_within_bounds(
    capabilities: CapabilitiesView,
    actual_width: u32,
    actual_height: u32,
)
    requires
        capabilities.current_extent.is_none(),
        capabilities.min_image_extent[0] <= capabilities.max_image_extent[0],
        capabilities.min_image_extent[1] <= capabilities.max_image_extent[1],
    ensures
        ({
            let (width, height) = capabilities.extent(actual_width, actual_height);
            &&& capabilities.min_image_extent[0] <= width <= capabilities.max_image_extent[0]
            &&& capabilities.min_image_extent[1] <= height <= capabilities.max_image_extent[1]
            &&& capabilities.min_image_extent[0] <= actual_width
                <= capabilities.max_image_extent[0] ==> width == actual_width
            &&& capabilities.min_image_extent[1] <= actual_height
                <= capabilities.max_image_extent[1] ==> height == actual_height
        }),
{
}

} // verus!
