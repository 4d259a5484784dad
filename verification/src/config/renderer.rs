//! Which backend draws.
use vstd::prelude::*;

verus! {

/// The backend the configuration names. It is settled once, when the
/// application starts.
#[derive(Clone, Copy, PartialEq, Eq, Debug, Structural)]
pub enum RendererApi {
    /// The immediate-mode backend.
    Classic,
    /// The Vulkan backend.
    Vulkan,
}

impl Default for RendererApi {
    fn default() -> (api: RendererApi)
        ensures
            api == RendererApi::Classic,
    {
        RendererApi::Classic
    }
}

/// The configuration names a backend that the application was built without.
#[derive(Clone, Copy, PartialEq, Eq, Debug, Structural)]
pub struct DisabledBackend {
    /// The backend that was named.
    pub api: RendererApi,
}

impl RendererApi {
    /// Whether an application built with or without the Vulkan backend, as
    /// `vulkan_enabled` says, has this backend.
    pub open spec fn enabled(self, vulkan_enabled: bool) -> bool {
        self == RendererApi::Classic || vulkan_enabled
    }

    /// The backend to start, which is the one named; a configuration that
    /// names a backend the application was built without is refused.
    pub fn select(self, vulkan_enabled: bool) -> (chosen: Result<RendererApi, DisabledBackend>)
        ensures
            chosen == if self.enabled(vulkan_enabled) {
                Ok::<RendererApi, DisabledBackend>(self)
            } else {
                Err::<RendererApi, DisabledBackend>(DisabledBackend { api: self })
            },
    {
        match self {
            RendererApi::Classic => Ok(self),
            RendererApi::Vulkan => if vulkan_enabled {
                Ok(self)
            } else {
                Err(DisabledBackend { api: self })
            },
        }
    }
}

} // verus!
