//! What the configuration decides for the renderer.
pub mod renderer;
pub mod window;

pub use renderer::RendererApi;
pub use window::{Decorations, StartupMode};
