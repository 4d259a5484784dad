//! What the configuration says of the window.
use vstd::prelude::*;

verus! {

/// What frames the window.
#[derive(Clone, Copy, PartialEq, Eq, Debug, Structural)]
pub enum Decorations {
    /// Border and title bar.
    Full,
    /// A title bar that lets the window show through.
    Transparent,
    /// A title bar without buttons.
    Buttonless,
    /// Neither border nor title bar.
    Undecorated,
}

/// How the window shows when the application starts.
#[derive(Clone, Copy, PartialEq, Eq, Debug, Structural)]
pub enum StartupMode {
    /// At its own size.
    Windowed,
    /// As large as the screen allows.
    Maximized,
    /// Over the whole screen.
    Fullscreen,
    /// Over the whole screen, without a space of its own.
    SimpleFullscreen,
}

impl Decorations {
    /// Whether the window has decorations at all.
    pub open spec fn decorated(self) -> bool {
        self != Decorations::Undecorated
    }
}

} // verus!
