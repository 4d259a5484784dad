//! From the devices of an instance to what is asked of the driver: the device
//! to create, its queues, and the parameters of the swapchain.
use vstd::prelude::*;

use super::device::{
    device_views, first_index_of, first_solution, lemma_first_index_of,
    lemma_first_index_of_is, preferred_format, select_device, solvable, DeviceExtensions, PhysicalDevice, PhysicalDeviceSolution,
    PhysicalDeviceSolutionView, PhysicalDeviceView, QueueFamily, SharingMode, SharingModeView,
};
use super::error::{
    VulkanInstanceCreationError, VulkanInstanceCreationErrorView, NO_SUITABLE_FORMAT,
    NO_SUITABLE_PRESENT_MODE,
};
use super::swapchain_ext::{
    CapabilitiesExt, PresentMode, SupportedPresentModesExt, SurfaceFormat,
};

verus! {

/// The logical device to create.
#[derive(Debug)]
pub struct DeviceRequest {
    /// The physical device's place in the instance's list.
    pub physical_device: usize,
    /// Extensions to enable.
    pub extensions: DeviceExtensions,
    /// Families to create one queue of each, in this order.
    pub families: Vec<QueueFamily>,
}

/// A `DeviceRequest` with its list as a sequence.
pub struct DeviceRequestView {
    pub physical_device: usize,
    pub extensions: DeviceExtensions,
    pub families: Seq<QueueFamily>,
}

impl View for DeviceRequest {
    type V = DeviceRequestView;

    open spec fn view(&self) -> DeviceRequestView {
        DeviceRequestView {
            physical_device: self.physical_device,
            extensions: self.extensions,
            families: self.families@,
        }
    }
}

/// The swapchain to create.
#[derive(Debug)]
pub struct SwapchainParams {
    /// How many images it holds.
    pub image_count: u32,
    /// Format and colour space of its images.
    pub format: SurfaceFormat,
    /// Width and height of its images.
    pub extent: [u32; 2],
    /// Which queue families use its images.
    pub sharing_mode: SharingMode,
    /// How its images reach the screen.
    pub present_mode: PresentMode,
}

/// A `SwapchainParams` with its lists as sequences.
pub struct SwapchainParamsView {
    pub image_count: u32,
    pub format: SurfaceFormat,
    pub extent: (u32, u32),
    pub sharing_mode: SharingModeView,
    pub present_mode: PresentMode,
}

impl View for SwapchainParams {
    type V = SwapchainParamsView;

    open spec fn view(&self) -> SwapchainParamsView {
        SwapchainParamsView {
            image_count: self.image_count,
            format: self.format,
            extent: (self.extent[0], self.extent[1]),
            sharing_mode: self.sharing_mode@,
            present_mode: self.present_mode,
        }
    }
}

/// The view of swapchain parameters, or of the failure to settle them.
pub open spec fn params_view(
    outcome: Result<SwapchainParams, VulkanInstanceCreationError>,
) -> Result<SwapchainParamsView, VulkanInstanceCreationErrorView> {
    match outcome {
        Ok(params) => Ok(params@),
        Err(error) => Err(error@),
    }
}

impl PhysicalDeviceSolutionView {
    /// The device with the swapchain extension on, and one queue of each family
    /// the solution uses.
    pub open spec fn device_request(self) -> DeviceRequestView {
        DeviceRequestView {
            physical_device: self.physical_device,
            extensions: DeviceExtensions { khr_swapchain: true },
            families: self.families(),
        }
    }

    /// Where among the queues created on request the drawing queue and the
    /// presenting queue stand.
    pub open spec fn queue_positions(self) -> (usize, usize) {
        if self.queues_are_same() {
            (0, 0)
        } else {
            (0, 1)
        }
    }

    /// The image count fits the 32 bits the driver takes it in.
    pub open spec fn image_count_fits(self) -> bool {
        self.capabilities.image_count_fits()
    }

    /// The image count is no obstacle to settling the swapchain: it fits the 32
    /// bits the driver takes it in, or it is not needed, for want of the
    /// preferred format or of a present mode.
    pub open spec fn can_settle(self) -> bool {
        self.best_format().is_some() && self.capabilities.present_modes.preferred().is_some()
            ==> self.image_count_fits()
    }

    /// The swapchain for a window of the given size in physical pixels. It
    /// fails for want of the preferred format, then for want of a present mode.
    pub open spec fn swapchain_params(self, window_width: u32, window_height: u32) -> Result<
        SwapchainParamsView,
        VulkanInstanceCreationErrorView,
    > {
        match self.best_format() {
            None => Err(VulkanInstanceCreationErrorView::Dynamic(NO_SUITABLE_FORMAT@)),
            Some(format) => match self.capabilities.present_modes.preferred() {
                None => Err(VulkanInstanceCreationErrorView::Dynamic(NO_SUITABLE_PRESENT_MODE@)),
                Some(present_mode) => Ok(
                    SwapchainParamsView {
                        image_count: self.capabilities.image_count() as u32,
                        format,
                        extent: self.capabilities.extent(window_width, window_height),
                        sharing_mode: self.image_sharing_mode(),
                        present_mode,
                    },
                ),
            },
        }
    }
}

impl PhysicalDeviceSolution {
    /// The logical device to create for this solution.
    pub fn device_request(&self) -> (request: DeviceRequest)
        ensures
            request@ == self@.device_request(),
    {
        DeviceRequest {
            physical_device: self.physical_device,
            extensions: DeviceExtensions { khr_swapchain: true },
            families: self.families(),
        }
    }

    /// Where among the queues created on request the drawing queue and the
    /// presenting queue stand.
    pub fn queue_positions(&self) -> (positions: (usize, usize))
        ensures
            positions == self@.queue_positions(),
    {
        if self.queues_are_same() {
            (0, 0)
        } else {
            (0, 1)
        }
    }

    /// Whether the image count fits the 32 bits the driver takes it in.
    pub fn image_count_fits(&self) -> (fits: bool)
        ensures
            fits == self@.image_count_fits(),
    {
        self.capabilities.image_count_fits()
    }

    /// Whether the image count is no obstacle to settling the swapchain.
    pub fn can_settle(&self) -> (can: bool)
        ensures
            can == self@.can_settle(),
    {
        if self.best_format().is_none() {
            return true;
        }
        if self.capabilities.present_modes.choose_present_mode().is_none() {
            return true;
        }
        self.capabilities.image_count_fits()
    }

    /// The swapchain to create for a window of the given size in physical
    /// pixels. Where format and present mode are found, it asks that the image
    /// count fit 32 bits.
    pub fn swapchain_params(&self, window_width: u32, window_height: u32) -> (outcome: Result<
        SwapchainParams,
        VulkanInstanceCreationError,
    >)
        requires
            self@.can_settle(),
        ensures
            params_view(outcome) == self@.swapchain_params(window_width, window_height),
    {
        let sharing_mode = self.image_sharing_mode();
        let format = match self.best_format() {
            Some(format) => format,
            None => {
                return Err(
                    VulkanInstanceCreationError::Dynamic(String::from_str(NO_SUITABLE_FORMAT)),
                );
            },
        };
        let present_mode = match self.capabilities.present_modes.choose_present_mode() {
            Some(present_mode) => present_mode,
            None => {
                return Err(
                    VulkanInstanceCreationError::Dynamic(
                        String::from_str(NO_SUITABLE_PRESENT_MODE),
                    ),
                );
            },
        };
        Ok(
            SwapchainParams {
                image_count: self.capabilities.choose_image_count(),
                format,
                extent: self.capabilities.choose_extent(window_width, window_height),
                sharing_mode,
                present_mode,
            },
        )
    }
}

/// What a negotiation settles: the device, how to create it, and its swapchain.
#[derive(Debug)]
pub struct Negotiated {
    pub solution: PhysicalDeviceSolution,
    pub device: DeviceRequest,
    pub swapchain: SwapchainParams,
}

/// A `Negotiated` with its lists as sequences.
pub struct NegotiatedView {
    pub solution: PhysicalDeviceSolutionView,
    pub device: DeviceRequestView,
    pub swapchain: SwapchainParamsView,
}

impl View for Negotiated {
    type V = NegotiatedView;

    open spec fn view(&self) -> NegotiatedView {
        NegotiatedView {
            solution: self.solution@,
            device: self.device@,
            swapchain: self.swapchain@,
        }
    }
}

/// The view of what a negotiation settled, or of its failure.
pub open spec fn outcome_view(outcome: Result<Negotiated, VulkanInstanceCreationError>) -> Result<
    NegotiatedView,
    VulkanInstanceCreationErrorView,
> {
    match outcome {
        Ok(negotiated) => Ok(negotiated@),
        Err(error) => Err(error@),
    }
}

/// What negotiating over `devices` comes to, for a window of the given size in
/// physical pixels: the first device that can run this backend, and the
/// swapchain on it; a failure where no device can, or where the swapchain's
/// parameters cannot be settled on that first device.
pub open spec fn negotiated(
    devices: Seq<PhysicalDeviceView>,
    window_width: u32,
    window_height: u32,
) -> Result<NegotiatedView, VulkanInstanceCreationErrorView> {
    match first_solution(devices) {
        None => Err(VulkanInstanceCreationErrorView::NoMatchingDevice),
        Some(solution) => match solution.swapchain_params(window_width, window_height) {
            Err(error) => Err(error),
            Ok(swapchain) => Ok(
                NegotiatedView { solution, device: solution.device_request(), swapchain },
            ),
        },
    }
}

/// The image count is no obstacle to negotiating over `devices`: on the device
/// to settle on, if there is one, it fits the 32 bits the driver takes it in,
/// or it is not needed, for want of the preferred format or of a present mode.
pub open spec fn negotiable(devices: Seq<PhysicalDeviceView>) -> bool {
    first_solution(devices) matches Some(solution) ==> solution.can_settle()
}

/// Settles the device and the swapchain for the devices of an instance, in the
/// instance's order, and a window of the given size in physical pixels. Where
/// a device, its format and its present mode are found, it asks that the image
/// count fit 32 bits.
pub fn negotiate(devices: &Vec<PhysicalDevice>, window_width: u32, window_height: u32) -> (outcome:
    Result<Negotiated, VulkanInstanceCreationError>)
    requires
        negotiable(device_views(devices@)),
    ensures
        outcome_view(outcome) == negotiated(device_views(devices@), window_width, window_height),
{
    let solution = match select_device(devices) {
        Some(solution) => solution,
        None => {
            return Err(VulkanInstanceCreationError::NoMatchingDevice);
        },
    };
    let swapchain = match solution.swapchain_params(window_width, window_height) {
        Ok(swapchain) => swapchain,
        Err(error) => {
            return Err(error);
        },
    };
    let device = solution.device_request();
    Ok(Negotiated { solution, device, swapchain })
}

/// Whether `negotiate` may be called on these devices.
pub fn can_negotiate(devices: &Vec<PhysicalDevice>) -> (can: bool)
    ensures
        can == negotiable(device_views(devices@)),
{
    match select_device(devices) {
        Some(solution) => solution.can_settle(),
        None => true,
    }
}

/// Whether `outcome` is what `try_negotiate` gives over `devices` for a window
/// of the given size: what negotiating comes to, or nothing where a device,
/// its format and its present mode are found and the image count does not fit
/// 32 bits.
pub open spec fn try_negotiated(
    devices: Seq<PhysicalDeviceView>,
    window_width: u32,
    window_height: u32,
    outcome: Option<Result<Negotiated, VulkanInstanceCreationError>>,
) -> bool {
    match outcome {
        Some(settled) => negotiable(devices) && outcome_view(settled) == negotiated(
            devices,
            window_width,
            window_height,
        ),
        None => !negotiable(devices),
    }
}

/// Settles the device and the swapchain as `negotiate` does, for any devices.
/// Gives nothing where a device, its format and its present mode are found and
/// the image count does not fit the 32 bits the driver takes it in.
pub fn try_negotiate(devices: &Vec<PhysicalDevice>, window_width: u32, window_height: u32) -> (outcome:
    Option<Result<Negotiated, VulkanInstanceCreationError>>)
    ensures
        try_negotiated(device_views(devices@), window_width, window_height, outcome),
{
    if can_negotiate(devices) {
        Some(negotiate(devices, window_width, window_height))
    } else {
        None
    }
}

/// Negotiation has one outcome. Two runs over devices that are the same, in
/// the same order, and a window of the same size come to the same device, the
/// same queues and the same swapchain, or to the same failure.
pub proof fn lemma_negotiation_is_deterministic(
    first_devices: Seq<PhysicalDevice>,
    second_devices: Seq<PhysicalDevice>,
    window_width: u32,
    window_height: u32,
    first: Result<Negotiated, VulkanInstanceCreationError>,
    second: Result<Negotiated, VulkanInstanceCreationError>,
)
    requires
        device_views(first_devices) == device_views(second_devices),
        outcome_view(first) == negotiated(device_views(first_devices), window_width, window_height),
        outcome_view(second) == negotiated(
            device_views(second_devices),
            window_width,
            window_height,
        ),
    ensures
        outcome_view(first) == outcome_view(second),
        first matches Ok(a) ==> second matches Ok(b) && a.solution.physical_device
            == b.solution.physical_device && a.swapchain.format == b.swapchain.format
            && a.swapchain.present_mode == b.swapchain.present_mode && a.swapchain@.extent
            == b.swapchain@.extent,
{
}

/// Negotiation for any devices has one outcome too. Two runs of `try_negotiate`
/// over devices that are the same, in the same order, and a window of the same
/// size both give nothing, or both come to the same device, image count,
/// format, extent, sharing mode and present mode, or both to the same failure.
pub proof fn lemma_try_negotiation_is_deterministic(
    first_devices: Seq<PhysicalDevice>,
    second_devices: Seq<PhysicalDevice>,
    window_width: u32,
    window_height: u32,
    first: Option<Result<Negotiated, VulkanInstanceCreationError>>,
    second: Option<Result<Negotiated, VulkanInstanceCreationError>>,
)
    requires
        device_views(first_devices) == device_views(second_devices),
        try_negotiated(device_views(first_devices), window_width, window_height, first),
        try_negotiated(device_views(second_devices), window_width, window_height, second),
    ensures
        first.is_none() == second.is_none(),
        first matches Some(a) ==> second matches Some(b) && outcome_view(a) == outcome_view(b),
        first matches Some(Ok(a)) ==> second matches Some(Ok(b)) && a.solution@ == b.solution@
            && a.device@ == b.device@ && a.swapchain@ == b.swapchain@,
        first matches Some(Err(a)) ==> second matches Some(Err(b)) && a@ == b@,
{
}

/// Without the preferred format among those the surface supports, settling the
/// swapchain fails for want of a format, whatever else the surface supports.
pub proof fn lemma_no_format_but_the_preferred(
    solution: PhysicalDeviceSolutionView,
    window_width: u32,
    window_height: u32,
)
    requires
        !solution.capabilities.supported_formats.contains(preferred_format()),
    ensures
        solution.best_format().is_none(),
        solution.swapchain_params(window_width, window_height) == Err::<
            SwapchainParamsView,
            VulkanInstanceCreationErrorView,
        >(VulkanInstanceCreationErrorView::Dynamic(NO_SUITABLE_FORMAT@)),
{
}

/// With the preferred format supported, that one is chosen, and settling the
/// swapchain fails only for want of a present mode.
pub proof fn lemma_preferred_format_is_chosen(
    solution: PhysicalDeviceSolutionView,
    window_width: u32,
    window_height: u32,
)
    requires
        solution.capabilities.supported_formats.contains(preferred_format()),
    ensures
        solution.best_format() == Some(preferred_format()),
        solution.swapchain_params(window_width, window_height).is_ok()
            <==> solution.capabilities.present_modes.preferred().is_some(),
        solution.swapchain_params(window_width, window_height) matches Err(error) ==> error
            == VulkanInstanceCreationErrorView::Dynamic(NO_SUITABLE_PRESENT_MODE@),
{
}

/// One family for drawing and presenting gives exclusive sharing by that
/// family; two give concurrent sharing by the drawing family, then the
/// presenting one.
pub proof fn lemma_sharing_mode(solution: PhysicalDeviceSolutionView)
    ensures
        solution.graphics_family.id == solution.presentation_family.id
            ==> solution.image_sharing_mode() == SharingModeView::Exclusive(
            solution.graphics_family.id,
        ),
        solution.graphics_family.id != solution.presentation_family.id
            ==> solution.image_sharing_mode() == SharingModeView::Concurrent(
            seq![solution.graphics_family.id, solution.presentation_family.id],
        ),
{
}

/// The device negotiation settles on can run this backend, and no device
/// before it in the list can.
pub proof fn lemma_first_fit(devices: Seq<PhysicalDeviceView>)
    ensures
        match first_solution(devices) {
            Some(solution) => exists|i: int|
                0 <= i < devices.len() && devices[i].solution() == Some(solution) && forall|
                    j: int,
                |
                    0 <= j < i ==> (#[trigger] devices[j]).solution().is_none(),
            None => forall|j: int|
                0 <= j < devices.len() ==> (#[trigger] devices[j]).solution().is_none(),
        },
{
    lemma_first_index_of(devices, solvable());
}

/// Where the device to settle on lacks the preferred format, negotiation can
/// be asked for and fails for want of a format, whatever the device's image
/// count, its present modes and the devices after it.
pub proof fn lemma_negotiation_fails_for_want_of_a_format(
    devices: Seq<PhysicalDeviceView>,
    window_width: u32,
    window_height: u32,
)
    requires
        first_solution(devices) matches Some(solution)
            && !solution.capabilities.supported_formats.contains(preferred_format()),
    ensures
        negotiable(devices),
        negotiated(devices, window_width, window_height) == Err::<
            NegotiatedView,
            VulkanInstanceCreationErrorView,
        >(VulkanInstanceCreationErrorView::Dynamic(NO_SUITABLE_FORMAT@)),
{
}

/// Where the device to settle on has the preferred format and offers none of
/// the present modes asked for, negotiation can be asked for and fails for
/// want of a present mode, whatever the device's image count and the devices
/// after it.
pub proof fn lemma_negotiation_fails_for_want_of_a_present_mode(
    devices: Seq<PhysicalDeviceView>,
    window_width: u32,
    window_height: u32,
)
    requires
        first_solution(devices) matches Some(solution)
            && solution.capabilities.supported_formats.contains(preferred_format())
            && solution.capabilities.present_modes.preferred().is_none(),
    ensures
        negotiable(devices),
        negotiated(devices, window_width, window_height) == Err::<
            NegotiatedView,
            VulkanInstanceCreationErrorView,
        >(VulkanInstanceCreationErrorView::Dynamic(NO_SUITABLE_PRESENT_MODE@)),
{
}

/// Devices after the first that can run this backend do not count: where the
/// first `count` devices hold one that can, negotiating over those alone comes
/// to what negotiating over all of them comes to.
pub proof fn lemma_negotiation_stops_at_the_first_fit(
    devices: Seq<PhysicalDeviceView>,
    count: int,
    window_width: u32,
    window_height: u32,
)
    requires
        0 <= count <= devices.len(),
        first_solution(devices.take(count)).is_some(),
    ensures
        first_solution(devices.take(count)) == first_solution(devices),
        negotiable(devices.take(count)) == negotiable(devices),
        negotiated(devices.take(count), window_width, window_height) == negotiated(
            devices,
            window_width,
            window_height,
        ),
{
    let seen = devices.take(count);
    lemma_first_index_of(seen, solvable());
    let i = first_index_of(seen, solvable()).unwrap();
    assert(seen[i] == devices[i]);
    assert forall|j: int| 0 <= j < i implies !solvable()(#[trigger] devices[j]) by {
        assert(seen[j] == devices[j]);
    }
    lemma_first_index_of_is(devices, solvable(), i);
}

} // verus!
