//! Why setting up the Vulkan backend failed.
use vstd::prelude::*;
use vstd::string::*;
use vulkano::device::DeviceCreationError;
use vulkano::instance::debug::DebugCallbackCreationError;
use vulkano::instance::InstanceCreationError;
use vulkano::swapchain::SwapchainCreationError;
use vulkano_win::CreationError;

verus! {

/// `vulkano::instance::InstanceCreationError`, held as it came. Nothing is said of what is in it.
#[verifier::external_type_specification]
#[verifier::external_body]
pub struct ExInstanceCreationError(InstanceCreationError);

/// `vulkano::instance::debug::DebugCallbackCreationError`, held as it came. Nothing is said of what is in it.
#[verifier::external_type_specification]
#[verifier::external_body]
pub struct ExDebugCallbackCreationError(DebugCallbackCreationError);

/// `vulkano_win::CreationError`, held as it came. Nothing is said of what is in it.
#[verifier::external_type_specification]
#[verifier::external_body]
pub struct ExSurfaceCreationError(CreationError);

/// `vulkano::device::DeviceCreationError`, held as it came. Nothing is said of what is in it.
#[verifier::external_type_specification]
#[verifier::external_body]
pub struct ExDeviceCreationError(DeviceCreationError);

/// `vulkano::swapchain::SwapchainCreationError`, held as it came. Nothing is said of what is in it.
#[verifier::external_type_specification]
#[verifier::external_body]
pub struct ExSwapchainCreationError(SwapchainCreationError);

/// What is reported when no supported format is the preferred one.
pub const NO_SUITABLE_FORMAT: &'static str = "No suitable supported formats";

/// What is reported when none of the wanted present modes is offered.
pub const NO_SUITABLE_PRESENT_MODE: &'static str = "No suitable present modes";

/// Why setting up the Vulkan backend failed. Every one of these ends the
/// attempt: nothing is tried again.
#[derive(Debug)]
pub enum VulkanInstanceCreationError {
    /// The instance could not be created.
    Instance(InstanceCreationError),
    /// The debug callback could not be installed.
    DebugCallback(DebugCallbackCreationError),
    /// The window's surface could not be created.
    SurfaceCreation(CreationError),
    /// No device of the instance can run this backend.
    NoMatchingDevice,
    /// The device could not be created.
    DeviceCreation(DeviceCreationError),
    /// Another failure, by its message.
    Dynamic(String),
    /// The swapchain could not be created.
    SwapchainCreation(SwapchainCreationError),
}

/// A `VulkanInstanceCreationError` with its message as a sequence.
pub enum VulkanInstanceCreationErrorView {
    Instance(InstanceCreationError),
    DebugCallback(DebugCallbackCreationError),
    SurfaceCreation(CreationError),
    NoMatchingDevice,
    DeviceCreation(DeviceCreationError),
    Dynamic(Seq<char>),
    SwapchainCreation(SwapchainCreationError),
}

impl View for VulkanInstanceCreationError {
    type V = VulkanInstanceCreationErrorView;

    open spec fn view(&self) -> VulkanInstanceCreationErrorView {
        match self {
            VulkanInstanceCreationError::Instance(e) => VulkanInstanceCreationErrorView::Instance(
                *e,
            ),
            VulkanInstanceCreationError::DebugCallback(e) =>
                VulkanInstanceCreationErrorView::DebugCallback(*e),
            VulkanInstanceCreationError::SurfaceCreation(e) =>
                VulkanInstanceCreationErrorView::SurfaceCreation(*e),
            VulkanInstanceCreationError::NoMatchingDevice =>
                VulkanInstanceCreationErrorView::NoMatchingDevice,
            VulkanInstanceCreationError::DeviceCreation(e) =>
                VulkanInstanceCreationErrorView::DeviceCreation(*e),
            VulkanInstanceCreationError::Dynamic(message) =>
                VulkanInstanceCreationErrorView::Dynamic(message@),
            VulkanInstanceCreationError::SwapchainCreation(e) =>
                VulkanInstanceCreationErrorView::SwapchainCreation(*e),
        }
    }
}

impl VulkanInstanceCreationErrorView {
    /// What failed, in a few words.
    pub open spec fn description(self) -> Seq<char> {
        match self {
            VulkanInstanceCreationErrorView::Instance(_) => "Error creating vulkan instance"@,
            VulkanInstanceCreationErrorView::DebugCallback(_) =>
                "Error creating vulkan debug callback"@,
            VulkanInstanceCreationErrorView::SurfaceCreation(_) => "Error creating vulkan surface"@,
            VulkanInstanceCreationErrorView::NoMatchingDevice => "No matching vulkan devices!"@,
            VulkanInstanceCreationErrorView::DeviceCreation(_) => "Error creating device"@,
            VulkanInstanceCreationErrorView::Dynamic(message) => message,
            VulkanInstanceCreationErrorView::SwapchainCreation(_) => "Error creating swapchain"@,
        }
    }

    /// `text` is what the error underneath prints as; nothing holds it where
    /// there is no error underneath.
    pub open spec fn cause_prints(self, text: String) -> bool {
        match self {
            VulkanInstanceCreationErrorView::Instance(e) => to_string_from_display_ensures::<
                InstanceCreationError,
            >(&e, text),
            VulkanInstanceCreationErrorView::DebugCallback(e) => to_string_from_display_ensures::<
                DebugCallbackCreationError,
            >(&e, text),
            VulkanInstanceCreationErrorView::SurfaceCreation(e) => to_string_from_display_ensures::<
                CreationError,
            >(&e, text),
            VulkanInstanceCreationErrorView::NoMatchingDevice => false,
            VulkanInstanceCreationErrorView::DeviceCreation(e) => to_string_from_display_ensures::<
                DeviceCreationError,
            >(&e, text),
            VulkanInstanceCreationErrorView::Dynamic(_) => false,
            VulkanInstanceCreationErrorView::SwapchainCreation(e) =>
                to_string_from_display_ensures::<SwapchainCreationError>(&e, text),
        }
    }

    /// Whether an error of another library lies underneath.
    pub open spec fn has_cause(self) -> bool {
        !(self is NoMatchingDevice) && !(self is Dynamic)
    }

    /// Whether `text` is the failure as one line: the description, followed
    /// where an error lies underneath by a semicolon, a space and what that
    /// error prints as.
    pub open spec fn prints(self, text: Seq<char>) -> bool {
        if self.has_cause() {
            exists|cause: String|
                self.cause_prints(cause) && text == explained(self.description(), cause@)
        } else {
            text == self.description()
        }
    }
}

/// A description, a semicolon and a space, then what the error underneath
/// prints as.
pub open spec fn explained(description: Seq<char>, cause: Seq<char>) -> Seq<char> {
    description + "; "@ + cause
}

/// Joins a description and the text of the error underneath.
pub fn explain(description: &str, cause: &str) -> (text: String)
    ensures
        text@ == explained(description@, cause@),
{
    let mut text = String::from_str(description);
    text.append("; ");
    text.append(cause);
    text
}

impl VulkanInstanceCreationError {
    /// What failed, in a few words.
    pub fn description(&self) -> (text: &str)
        ensures
            text@ == self@.description(),
    {
        match self {
            VulkanInstanceCreationError::Instance(_) => "Error creating vulkan instance",
            VulkanInstanceCreationError::DebugCallback(_) => "Error creating vulkan debug callback",
            VulkanInstanceCreationError::SurfaceCreation(_) => "Error creating vulkan surface",
            VulkanInstanceCreationError::NoMatchingDevice => "No matching vulkan devices!",
            VulkanInstanceCreationError::DeviceCreation(_) => "Error creating device",
            VulkanInstanceCreationError::Dynamic(message) => message.as_str(),
            VulkanInstanceCreationError::SwapchainCreation(_) => "Error creating swapchain",
        }
    }

    /// What the error underneath prints as, where there is one.
    pub fn cause(&self) -> (text: Option<String>)
        ensures
            text.is_some() == self@.has_cause(),
            text matches Some(t) ==> self@.cause_prints(t),
    {
        match self {
            VulkanInstanceCreationError::Instance(e) => Some(e.to_string()),
            VulkanInstanceCreationError::DebugCallback(e) => Some(e.to_string()),
            VulkanInstanceCreationError::SurfaceCreation(e) => Some(e.to_string()),
            VulkanInstanceCreationError::NoMatchingDevice => None,
            VulkanInstanceCreationError::DeviceCreation(e) => Some(e.to_string()),
            VulkanInstanceCreationError::Dynamic(_) => None,
            VulkanInstanceCreationError::SwapchainCreation(e) => Some(e.to_string()),
        }
    }

    /// The failure as one line.
    pub fn to_string(&self) -> (text: String)
        ensures
            self@.prints(text@),
    {
        match self.cause() {
            Some(cause) => explain(self.description(), cause.as_str()),
            None => String::from_str(self.description()),
        }
    }
}

impl From<DeviceCreationError> for VulkanInstanceCreationError {
    fn from(e: DeviceCreationError) -> (error: VulkanInstanceCreationError) {
        VulkanInstanceCreationError::DeviceCreation(e)
    }
}

impl vstd::std_specs::convert::FromSpecImpl<DeviceCreationError> for VulkanInstanceCreationError {
    open spec fn obeys_from_spec() -> bool {
        true
    }

    open spec fn from_spec(e: DeviceCreationError) -> VulkanInstanceCreationError {
        VulkanInstanceCreationError::DeviceCreation(e)
    }
}

impl From<SwapchainCreationError> for VulkanInstanceCreationError {
    fn from(e: SwapchainCreationError) -> (error: VulkanInstanceCreationError) {
        VulkanInstanceCreationError::SwapchainCreation(e)
    }
}

impl vstd::std_specs::convert::FromSpecImpl<SwapchainCreationError> for VulkanInstanceCreationError {
    open spec fn obeys_from_spec() -> bool {
        true
    }

    open spec fn from_spec(e: SwapchainCreationError) -> VulkanInstanceCreationError {
        VulkanInstanceCreationError::SwapchainCreation(e)
    }
}

} // verus!
