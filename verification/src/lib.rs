//! Rendering backends for a terminal emulator: the capabilities every backend
//! offers, the dispatcher that hides which backend is running, and the
//! negotiation that turns the devices of a Vulkan instance into the parameters
//! of a swapchain.
pub mod config;
pub mod renderer;
pub mod vk_renderer;
pub mod window;
