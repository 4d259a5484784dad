//! Physical devices as an instance lists them, and the search for one this
//! backend can run on.
use vstd::prelude::*;

use super::swapchain_ext::{
    Capabilities, CapabilitiesView, SurfaceFormat, COLOR_SPACE_SRGB_NONLINEAR,
    FORMAT_B8G8R8A8_UNORM,
};

verus! {

/// The device extensions this backend asks about.
#[derive(Clone, Copy, PartialEq, Eq, Debug, Structural)]
pub struct DeviceExtensions {
    /// Presenting through a swapchain.
    pub khr_swapchain: bool,
}

/// One queue family of a physical device, with what the surface says of it.
#[derive(Clone, Copy, PartialEq, Eq, Debug, Structural)]
pub struct QueueFamily {
    /// The family's number on its device.
    pub id: u32,
    /// How many queues the family has.
    pub queues_count: usize,
    /// Whether its queues run graphics commands.
    pub supports_graphics: bool,
    /// Whether the surface accepts images presented from its queues; `false`
    /// also where the surface was not asked.
    pub supports_surface: bool,
}

impl QueueFamily {
    /// The family has a queue, and its queues run graphics commands.
    pub open spec fn draws(self) -> bool {
        self.queues_count > 0 && self.supports_graphics
    }

    /// The family has a queue, and the surface accepts what its queues present.
    pub open spec fn presents(self) -> bool {
        self.supports_surface && self.queues_count > 0
    }

    /// Whether the family has a queue and its queues run graphics commands.
    pub fn can_draw(&self) -> (can: bool)
        ensures
            can == self.draws(),
    {
        self.queues_count > 0 && self.supports_graphics
    }

    /// Whether the family has a queue and the surface accepts what its queues
    /// present.
    pub fn can_present(&self) -> (can: bool)
        ensures
            can == self.presents(),
    {
        self.supports_surface && self.queues_count > 0
    }
}

/// A physical device as an instance lists it, with what the surface says of it.
#[derive(Debug)]
pub struct PhysicalDevice {
    /// The device's place in the instance's list.
    pub index: usize,
    /// Extensions the device supports.
    pub extensions: DeviceExtensions,
    /// The device's queue families, in the device's order.
    pub queue_families: Vec<QueueFamily>,
    /// What the surface allows of a swapchain on this device, where the
    /// surface was asked.
    pub capabilities: Option<Capabilities>,
}

/// A `PhysicalDevice` with its lists as sequences.
pub struct PhysicalDeviceView {
    pub index: usize,
    pub extensions: DeviceExtensions,
    pub queue_families: Seq<QueueFamily>,
    pub capabilities: Option<CapabilitiesView>,
}

/// The view of capabilities that may be absent.
pub open spec fn capabilities_view(capabilities: Option<Capabilities>) -> Option<CapabilitiesView> {
    match capabilities {
        Some(c) => Some(c@),
        None => None,
    }
}

impl View for PhysicalDevice {
    type V = PhysicalDeviceView;

    open spec fn view(&self) -> PhysicalDeviceView {
        PhysicalDeviceView {
            index: self.index,
            extensions: self.extensions,
            queue_families: self.queue_families@,
            capabilities: capabilities_view(self.capabilities),
        }
    }
}

/// Position of the first item of `items` that `wanted` holds of.
pub open spec fn first_index_of<T>(items: Seq<T>, wanted: spec_fn(T) -> bool) -> Option<int>
    decreases items.len(),
{
    if items.len() == 0 {
        None
    } else if wanted(items.first()) {
        Some(0)
    } else {
        match first_index_of(items.drop_first(), wanted) {
            Some(i) => Some(i + 1),
            None => None,
        }
    }
}

/// `first_index_of` gives a position exactly when some item is wanted: then it
/// is the position of a wanted item with no wanted item before it.
pub proof fn lemma_first_index_of<T>(items: Seq<T>, wanted: spec_fn(T) -> bool)
    ensures
        match first_index_of(items, wanted) {
            Some(i) => 0 <= i < items.len() && wanted(items[i]) && forall|j: int|
                0 <= j < i ==> !wanted(#[trigger] items[j]),
            None => forall|j: int| 0 <= j < items.len() ==> !wanted(#[trigger] items[j]),
        },
    decreases items.len(),
{
    if items.len() > 0 && !wanted(items.first()) {
        let rest = items.drop_first();
        lemma_first_index_of(rest, wanted);
        match first_index_of(rest, wanted) {
            Some(i) => {
                assert forall|j: int| 0 <= j < i + 1 implies !wanted(#[trigger] items[j]) by {
                    if j > 0 {
                        assert(items[j] == rest[j - 1]);
                    }
                }
            },
            None => {
                assert forall|j: int| 0 <= j < items.len() implies !wanted(
                    #[trigger] items[j],
                ) by {
                    if j > 0 {
                        assert(items[j] == rest[j - 1]);
                    }
                }
            },
        }
    }
}

/// The position `first_index_of` gives is the only one of a wanted item with no
/// wanted item before it.
pub proof fn lemma_first_index_of_is<T>(items: Seq<T>, wanted: spec_fn(T) -> bool, i: int)
    requires
        0 <= i < items.len(),
        wanted(items[i]),
        forall|j: int| 0 <= j < i ==> !wanted(#[trigger] items[j]),
    ensures
        first_index_of(items, wanted) == Some(i),
{
    lemma_first_index_of(items, wanted);
}

/// The predicate "has a queue and runs graphics commands".
pub open spec fn draws() -> spec_fn(QueueFamily) -> bool {
    |family: QueueFamily| family.draws()
}

/// The predicate "has a queue and presents to the surface".
pub open spec fn presents() -> spec_fn(QueueFamily) -> bool {
    |family: QueueFamily| family.presents()
}

/// The predicate "can run this backend".
pub open spec fn solvable() -> spec_fn(PhysicalDeviceView) -> bool {
    |device: PhysicalDeviceView| device.solution().is_some()
}

/// A device this backend can run on: the queue family to draw with, the one to
/// present with, and what the surface allows there.
#[derive(Debug)]
pub struct PhysicalDeviceSolution {
    /// The device's place in the instance's list.
    pub physical_device: usize,
    pub graphics_family: QueueFamily,
    pub presentation_family: QueueFamily,
    pub capabilities: Capabilities,
}

/// A `PhysicalDeviceSolution` with its lists as sequences.
pub struct PhysicalDeviceSolutionView {
    pub physical_device: usize,
    pub graphics_family: QueueFamily,
    pub presentation_family: QueueFamily,
    pub capabilities: CapabilitiesView,
}

impl View for PhysicalDeviceSolution {
    type V = PhysicalDeviceSolutionView;

    open spec fn view(&self) -> PhysicalDeviceSolutionView {
        PhysicalDeviceSolutionView {
            physical_device: self.physical_device,
            graphics_family: self.graphics_family,
            presentation_family: self.presentation_family,
            capabilities: self.capabilities@,
        }
    }
}

impl PhysicalDeviceView {
    /// The surface's answers can matter: the device supports swapchains and
    /// has a family that draws. Of any other device nothing is asked of the
    /// surface.
    pub open spec fn asks_surface(self) -> bool {
        self.extensions.khr_swapchain && first_index_of(self.queue_families, draws()).is_some()
    }

    /// The surface's capabilities can matter: its answers can, and the device
    /// has a family that presents.
    pub open spec fn asks_capabilities(self) -> bool {
        self.asks_surface() && first_index_of(self.queue_families, presents()).is_some()
    }

    /// How this backend would run on the device, if it can: the device must
    /// support swapchains, have a family that draws and one that presents, and
    /// the surface's capabilities on it must be known; of each kind of family,
    /// the first in the device's order is taken.
    pub open spec fn solution(self) -> Option<PhysicalDeviceSolutionView> {
        if !self.extensions.khr_swapchain {
            None
        } else {
            match (
                first_index_of(self.queue_families, draws()),
                first_index_of(self.queue_families, presents()),
                self.capabilities,
            ) {
                (Some(g), Some(p), Some(capabilities)) => Some(
                    PhysicalDeviceSolutionView {
                        physical_device: self.index,
                        graphics_family: self.queue_families[g],
                        presentation_family: self.queue_families[p],
                        capabilities,
                    },
                ),
                _ => None,
            }
        }
    }
}

/// A device has a solution exactly when it supports swapchains, has a family
/// that draws and one that presents, and the surface's capabilities on it are
/// known. The solution names the device, carries its capabilities, and holds of
/// each kind the family that no family of that kind comes before.
pub proof fn lemma_solution(device: PhysicalDeviceView)
    ensures
        match device.solution() {
            Some(solution) => {
                &&& device.extensions.khr_swapchain
                &&& solution.physical_device == device.index
                &&& device.asks_capabilities()
                &&& device.capabilities == Some(solution.capabilities)
                &&& exists|g: int, p: int|
                    {
                        &&& 0 <= g < device.queue_families.len()
                        &&& 0 <= p < device.queue_families.len()
                        &&& #[trigger] device.queue_families[g] == solution.graphics_family
                        &&& #[trigger] device.queue_families[p] == solution.presentation_family
                        &&& solution.graphics_family.draws()
                        &&& solution.presentation_family.presents()
                        &&& forall|j: int| 0 <= j < g ==> !(#[trigger] device.queue_families[j]).draws()
                        &&& forall|j: int|
                            0 <= j < p ==> !(#[trigger] device.queue_families[j]).presents()
                    }
            },
            None => {
                ||| !device.extensions.khr_swapchain
                ||| device.capabilities.is_none()
                ||| forall|j: int|
                    0 <= j < device.queue_families.len() ==> !(
                    #[trigger] device.queue_families[j]).draws()
                ||| forall|j: int|
                    0 <= j < device.queue_families.len() ==> !(
                    #[trigger] device.queue_families[j]).presents()
            },
        },
{
    lemma_first_index_of(device.queue_families, draws());
    lemma_first_index_of(device.queue_families, presents());
}

/// The solution of the first device, in the list's order, that has one.
pub open spec fn first_solution(devices: Seq<PhysicalDeviceView>) -> Option<
    PhysicalDeviceSolutionView,
> {
    match first_index_of(devices, solvable()) {
        Some(i) => devices[i].solution(),
        None => None,
    }
}

/// The views of a list of devices, in the list's order.
pub open spec fn device_views(devices: Seq<PhysicalDevice>) -> Seq<PhysicalDeviceView> {
    Seq::new(devices.len(), |i: int| devices[i]@)
}

/// The view of a solution that may be absent.
pub open spec fn solution_view(solution: Option<PhysicalDeviceSolution>) -> Option<
    PhysicalDeviceSolutionView,
> {
    match solution {
        Some(s) => Some(s@),
        None => None,
    }
}

fn first_drawing_family(families: &Vec<QueueFamily>) -> (found: Option<usize>)
    ensures
        match found {
            Some(i) => first_index_of(families@, draws()) == Some(i as int),
            None => first_index_of(families@, draws()).is_none(),
        },
{
    let mut i: usize = 0;
    while i < families.len()
        invariant
            i <= families.len(),
            forall|j: int| 0 <= j < i ==> !draws()(#[trigger] families@[j]),
        decreases families.len() - i,
    {
        let family = families[i];
        if family.queues_count > 0 && family.supports_graphics {
            proof {
                lemma_first_index_of_is(families@, draws(), i as int);
            }
            return Some(i);
        }
        i += 1;
    }
    proof {
        lemma_first_index_of(families@, draws());
    }
    None
}

fn first_presenting_family(families: &Vec<QueueFamily>) -> (found: Option<usize>)
    ensures
        match found {
            Some(i) => first_index_of(families@, presents()) == Some(i as int),
            None => first_index_of(families@, presents()).is_none(),
        },
{
    let mut i: usize = 0;
    while i < families.len()
        invariant
            i <= families.len(),
            forall|j: int| 0 <= j < i ==> !presents()(#[trigger] families@[j]),
        decreases families.len() - i,
    {
        let family = families[i];
        if family.supports_surface && family.queues_count > 0 {
            proof {
                lemma_first_index_of_is(families@, presents(), i as int);
            }
            return Some(i);
        }
        i += 1;
    }
    proof {
        lemma_first_index_of(families@, presents());
    }
    None
}

impl PhysicalDevice {
    /// The extensions the device supports.
    pub fn supported_extensions(&self) -> (extensions: DeviceExtensions)
        ensures
            extensions == self.extensions,
    {
        self.extensions
    }

    /// Whether the surface's answers can matter for this device: whether to
    /// ask the surface which of its families it accepts.
    pub fn asks_surface(&self) -> (asks: bool)
        ensures
            asks == self@.asks_surface(),
    {
        self.supported_extensions().khr_swapchain && first_drawing_family(
            &self.queue_families,
        ).is_some()
    }

    /// Whether the surface's capabilities can matter for this device: whether
    /// to ask the surface for them.
    pub fn asks_capabilities(&self) -> (asks: bool)
        ensures
            asks == self@.asks_capabilities(),
    {
        self.asks_surface() && first_presenting_family(&self.queue_families).is_some()
    }

    /// How this backend would run on the device, if it can.
    pub fn find_solution(&self) -> (found: Option<PhysicalDeviceSolution>)
        ensures
            solution_view(found) == self@.solution(),
    {
        if !self.supported_extensions().khr_swapchain {
            return None;
        }
        let capabilities = match &self.capabilities {
            Some(capabilities) => capabilities.clone(),
            None => {
                return None;
            },
        };
        match first_drawing_family(&self.queue_families) {
            None => None,
            Some(g) => match first_presenting_family(&self.queue_families) {
                None => None,
                Some(p) => {
                    proof {
                        lemma_first_index_of(self.queue_families@, draws());
                        lemma_first_index_of(self.queue_families@, presents());
                    }
                    Some(
                        PhysicalDeviceSolution {
                            physical_device: self.index,
                            graphics_family: self.queue_families[g],
                            presentation_family: self.queue_families[p],
                            capabilities,
                        },
                    )
                },
            },
        }
    }
}

/// The solution of the first device, in the list's order, that has one.
pub fn select_device(devices: &Vec<PhysicalDevice>) -> (found: Option<PhysicalDeviceSolution>)
    ensures
        solution_view(found) == first_solution(device_views(devices@)),
{
    let ghost views = device_views(devices@);
    let mut i: usize = 0;
    while i < devices.len()
        invariant
            i <= devices.len(),
            views == device_views(devices@),
            forall|j: int| 0 <= j < i ==> !solvable()(#[trigger] views[j]),
        decreases devices.len() - i,
    {
        let found = devices[i].find_solution();
        if found.is_some() {
            proof {
                lemma_first_index_of_is(views, solvable(), i as int);
            }
            return found;
        }
        i += 1;
    }
    proof {
        lemma_first_index_of(views, solvable());
    }
    None
}

/// Which queue families use the swapchain's images.
#[derive(Debug, PartialEq, Eq)]
pub enum SharingMode {
    /// One family alone.
    Exclusive(u32),
    /// Several families, each named.
    Concurrent(Vec<u32>),
}

/// A `SharingMode` with its list as a sequence.
pub enum SharingModeView {
    Exclusive(u32),
    Concurrent(Seq<u32>),
}

impl View for SharingMode {
    type V = SharingModeView;

    open spec fn view(&self) -> SharingModeView {
        match self {
            SharingMode::Exclusive(family) => SharingModeView::Exclusive(*family),
            SharingMode::Concurrent(families) => SharingModeView::Concurrent(families@),
        }
    }
}

/// The one format this backend draws in.
pub open spec fn preferred_format() -> SurfaceFormat {
    SurfaceFormat { format: FORMAT_B8G8R8A8_UNORM, color_space: COLOR_SPACE_SRGB_NONLINEAR }
}

impl PhysicalDeviceSolutionView {
    /// The preferred format where the surface supports exactly that one, else
    /// none: no other format stands in for it.
    pub open spec fn best_format(self) -> Option<SurfaceFormat> {
        if self.capabilities.supported_formats.contains(preferred_format()) {
            Some(preferred_format())
        } else {
            None
        }
    }

    /// Drawing and presenting use one and the same queue family.
    pub open spec fn queues_are_same(self) -> bool {
        self.graphics_family.id == self.presentation_family.id
    }

    /// The families to create queues of: the drawing one, then the presenting
    /// one where it is another.
    pub open spec fn families(self) -> Seq<QueueFamily> {
        if self.queues_are_same() {
            seq![self.graphics_family]
        } else {
            seq![self.graphics_family, self.presentation_family]
        }
    }

    /// Exclusive to the one family where drawing and presenting share it, else
    /// concurrent between the drawing and the presenting family, in that order.
    pub open spec fn image_sharing_mode(self) -> SharingModeView {
        if self.queues_are_same() {
            SharingModeView::Exclusive(self.graphics_family.id)
        } else {
            SharingModeView::Concurrent(seq![self.graphics_family.id, self.presentation_family.id])
        }
    }
}

impl PhysicalDeviceSolution {
    /// The format to create the swapchain with, if the surface supports it.
    pub fn best_format(&self) -> (found: Option<SurfaceFormat>)
        ensures
            found == self@.best_format(),
    {
        let formats = &self.capabilities.supported_formats;
        let mut i: usize = 0;
        while i < formats.len()
            invariant
                i <= formats.len(),
                formats@ == self@.capabilities.supported_formats,
                forall|j: int| 0 <= j < i ==> formats@[j] != preferred_format(),
            decreases formats.len() - i,
        {
            let candidate = formats[i];
            if candidate.format == FORMAT_B8G8R8A8_UNORM && candidate.color_space
                == COLOR_SPACE_SRGB_NONLINEAR {
                return Some(candidate);
            }
            i += 1;
        }
        None
    }

    /// The families to create queues of.
    pub fn families(&self) -> (wanted: Vec<QueueFamily>)
        ensures
            wanted@ == self@.families(),
    {
        let mut wanted: Vec<QueueFamily> = Vec::new();
        wanted.push(self.graphics_family);
        if !self.queues_are_same() {
            wanted.push(self.presentation_family);
        }
        wanted
    }

    /// Whether drawing and presenting use one and the same queue family.
    pub fn queues_are_same(&self) -> (same: bool)
        ensures
            same == self@.queues_are_same(),
    {
        self.graphics_family.id == self.presentation_family.id
    }

    /// Which queue families use the swapchain's images.
    pub fn image_sharing_mode(&self) -> (mode: SharingMode)
        ensures
            mode@ == self@.image_sharing_mode(),
    {
        if self.queues_are_same() {
            SharingMode::Exclusive(self.graphics_family.id)
        } else {
            let mut families: Vec<u32> = Vec::new();
            families.push(self.graphics_family.id);
            families.push(self.presentation_family.id);
            assert(families@ =~= seq![self.graphics_family.id, self.presentation_family.id]);
            SharingMode::Concurrent(families)
        }
    }
}

} // verus!
