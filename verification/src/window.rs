//! What the renderer shares with the window it draws in: the failures of
//! setting one up, and the little state that is kept beside it.
use glutin::{ContextError, CreationError};
use vstd::prelude::*;
use vstd::string::*;

use crate::config::window::{Decorations, StartupMode};
use crate::vk_renderer::error::{explain, explained, VulkanInstanceCreationError};

verus! {

/// `glutin::CreationError`, held as it came. Nothing is said of what is in it.
#[verifier::external_type_specification]
#[verifier::external_body]
pub struct ExCreationError(CreationError);

/// `glutin::ContextError`, held as it came. Nothing is said of what is in it.
#[verifier::external_type_specification]
#[verifier::external_body]
pub struct ExContextError(ContextError);

/// The name a window goes by where the configuration gives none: its title
/// and its class.
pub const DEFAULT_NAME: &'static str = "Alacritty";

/// Why a window could not be set up or used.
#[derive(Debug)]
pub enum Error {
    /// The window with its GL context could not be created.
    ContextCreation(CreationError),
    /// The GL context could not be worked with.
    Context(ContextError),
    /// The Vulkan backend could not be set up.
    VulkanInstanceCreation(VulkanInstanceCreationError),
    /// The window's Vulkan surface could not be created.
    VulkanSurfaceCreation(vulkano_win::CreationError),
}

impl Error {
    /// What failed, in a few words.
    pub open spec fn description_text(self) -> Seq<char> {
        match self {
            Error::ContextCreation(_) => "Error creating gl context"@,
            Error::Context(_) => "Error operating on render context"@,
            Error::VulkanInstanceCreation(_) => "Error creating vulkan context"@,
            Error::VulkanSurfaceCreation(_) => "Error creating vulkan surface"@,
        }
    }

    /// What the failure's line begins with.
    pub open spec fn heading(self) -> Seq<char> {
        match self {
            Error::ContextCreation(_) => "Error creating GL context"@,
            _ => self.description_text(),
        }
    }

    /// Whether `text` is what the error underneath prints as.
    pub open spec fn cause_prints(self, text: String) -> bool {
        match self {
            Error::ContextCreation(e) => to_string_from_display_ensures::<CreationError>(&e, text),
            Error::Context(e) => to_string_from_display_ensures::<ContextError>(&e, text),
            Error::VulkanInstanceCreation(e) => e@.prints(text@),
            Error::VulkanSurfaceCreation(e) => to_string_from_display_ensures::<
                vulkano_win::CreationError,
            >(&e, text),
        }
    }

    /// Whether `text` is the failure as one line: the heading, a semicolon and a
    /// space, then what the error underneath prints as.
    pub open spec fn prints(self, text: Seq<char>) -> bool {
        exists|cause: String| self.cause_prints(cause) && text == explained(self.heading(), cause@)
    }

    /// What failed, in a few words.
    pub fn description(&self) -> (text: &'static str)
        ensures
            text@ == self.description_text(),
    {
        match self {
            Error::ContextCreation(_) => "Error creating gl context",
            Error::Context(_) => "Error operating on render context",
            Error::VulkanInstanceCreation(_) => "Error creating vulkan context",
            Error::VulkanSurfaceCreation(_) => "Error creating vulkan surface",
        }
    }

    /// What the error underneath prints as. Every window error has one
    /// underneath.
    pub fn cause(&self) -> (text: String)
        ensures
            self.cause_prints(text),
    {
        match self {
            Error::ContextCreation(e) => e.to_string(),
            Error::Context(e) => e.to_string(),
            Error::VulkanInstanceCreation(e) => e.to_string(),
            Error::VulkanSurfaceCreation(e) => e.to_string(),
        }
    }

    /// The failure as one line.
    pub fn to_string(&self) -> (text: String)
        ensures
            self.prints(text@),
    {
        let cause = self.cause();
        match self {
            Error::ContextCreation(_) => explain("Error creating GL context", cause.as_str()),
            _ => explain(self.description(), cause.as_str()),
        }
    }
}

impl From<CreationError> for Error {
    fn from(val: CreationError) -> (error: Error) {
        Error::ContextCreation(val)
    }
}

impl vstd::std_specs::convert::FromSpecImpl<CreationError> for Error {
    open spec fn obeys_from_spec() -> bool {
        true
    }

    open spec fn from_spec(val: CreationError) -> Error {
        Error::ContextCreation(val)
    }
}

impl From<ContextError> for Error {
    fn from(val: ContextError) -> (error: Error) {
        Error::Context(val)
    }
}

impl vstd::std_specs::convert::FromSpecImpl<ContextError> for Error {
    open spec fn obeys_from_spec() -> bool {
        true
    }

    open spec fn from_spec(val: ContextError) -> Error {
        Error::Context(val)
    }
}

impl From<VulkanInstanceCreationError> for Error {
    fn from(val: VulkanInstanceCreationError) -> (error: Error) {
        Error::VulkanInstanceCreation(val)
    }
}

impl vstd::std_specs::convert::FromSpecImpl<VulkanInstanceCreationError> for Error {
    open spec fn obeys_from_spec() -> bool {
        true
    }

    open spec fn from_spec(val: VulkanInstanceCreationError) -> Error {
        Error::VulkanInstanceCreation(val)
    }
}

/// The name given, or the default one where none is given.
pub fn name_or_default<'a>(name: Option<&'a str>) -> (chosen: &'a str)
    ensures
        chosen@ == match name {
            Some(given) => given@,
            None => DEFAULT_NAME@,
        },
{
    match name {
        Some(given) => given,
        None => DEFAULT_NAME,
    }
}

/// What a window is built with, as far as the configuration decides it.
#[derive(Clone, Copy, PartialEq, Eq, Debug, Structural)]
pub struct WindowAttributes {
    /// Whether the window has decorations.
    pub decorations: bool,
    /// Whether the window is built maximized.
    pub maximized: bool,
}

/// What a window is built with: decorations unless the configuration asks for
/// none, and maximized exactly when it is to start so.
pub fn window_attributes(decorations: Decorations, startup_mode: StartupMode) -> (attributes:
    WindowAttributes)
    ensures
        attributes == (WindowAttributes {
            decorations: decorations.decorated(),
            maximized: startup_mode == StartupMode::Maximized,
        }),
{
    let decorated = match decorations {
        Decorations::Undecorated => false,
        _ => true,
    };
    let maximized = match startup_mode {
        StartupMode::Maximized => true,
        _ => false,
    };
    WindowAttributes { decorations: decorated, maximized }
}

/// What is done to a window once it shows.
#[derive(Clone, Copy, PartialEq, Eq, Debug, Structural)]
pub struct StartupSteps {
    /// Maximize it again: X11 forgets the request made when the window was
    /// built.
    pub maximize: bool,
    /// Spread it over the whole of its monitor.
    pub fullscreen: bool,
    /// Spread it over the whole screen without giving it a space of its own.
    pub simple_fullscreen: bool,
}

/// What is done to a window once it shows, for the mode it is to start in.
pub fn startup_steps(startup_mode: StartupMode, is_x11: bool) -> (steps: StartupSteps)
    ensures
        steps == (StartupSteps {
            maximize: is_x11 && startup_mode == StartupMode::Maximized,
            fullscreen: startup_mode == StartupMode::Fullscreen,
            simple_fullscreen: startup_mode == StartupMode::SimpleFullscreen,
        }),
{
    match startup_mode {
        StartupMode::Windowed => StartupSteps {
            maximize: false,
            fullscreen: false,
            simple_fullscreen: false,
        },
        StartupMode::Maximized => StartupSteps {
            maximize: is_x11,
            fullscreen: false,
            simple_fullscreen: false,
        },
        StartupMode::Fullscreen => StartupSteps {
            maximize: false,
            fullscreen: true,
            simple_fullscreen: false,
        },
        StartupMode::SimpleFullscreen => StartupSteps {
            maximize: false,
            fullscreen: false,
            simple_fullscreen: true,
        },
    }
}

/// Whether to ask for an sRGB framebuffer in the next attempt at a GL window,
/// given what the attempt that just failed asked for, if there was one. The
/// first attempt asks for none, the second for one; there is no third.
pub fn next_srgb_attempt(failed: Option<bool>) -> (next: Option<bool>)
    ensures
        next == match failed {
            None => Some(false),
            Some(false) => Some(true),
            Some(true) => None,
        },
{
    match failed {
        None => Some(false),
        Some(false) => Some(true),
        Some(true) => None,
    }
}

/// Whether the mouse cursor shows over the window.
#[derive(Clone, Copy, PartialEq, Eq, Debug, Structural)]
pub struct MouseVisibility {
    pub visible: bool,
}

impl MouseVisibility {
    /// Takes note of whether the cursor is to show. Where that is a change,
    /// returns what the window is to be told: whether to hide the cursor.
    pub fn set(&mut self, visible: bool) -> (hide_cursor: Option<bool>)
        ensures
            final(self).visible == visible,
            hide_cursor == if visible != old(self).visible {
                Some(!visible)
            } else {
                None
            },
    {
        if visible != self.visible {
            self.visible = visible;
            Some(!visible)
        } else {
            None
        }
    }
}

/// What a window does for the system it runs on, once it is set up.
pub trait OsExtensions {
    /// Does what the system asks for; nothing where it asks for nothing.
    fn run_os_extensions(&self) {
    }
}

} // verus!
