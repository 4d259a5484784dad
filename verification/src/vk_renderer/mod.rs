//! The Vulkan backend: which device it runs on and how its swapchain is set up.
//!
//! Nothing here talks to a driver. The devices of an instance, with what the
//! surface says about each, come in as plain values; what to create, and with
//! which parameters, goes out as plain values.
pub mod debug;
pub mod device;
pub mod error;
pub mod instance;
pub mod negotiation;
pub mod swapchain_ext;
pub mod version;

pub use device::{DeviceExtensions, PhysicalDevice, PhysicalDeviceSolution, QueueFamily};
pub use error::VulkanInstanceCreationError;
pub use negotiation::{negotiate, try_negotiate, DeviceRequest, Negotiated, SwapchainParams};
