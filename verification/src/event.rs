//! What the window reports, and what the frame loop is told to do about it.

use vstd::prelude::*;
use crate::surface::{PhysicalSize, SurfaceConfig};

verus! {

/// The keys the renderer tells apart.
#[derive(Clone, Copy, Debug, PartialEq, Eq, Structural)]
pub enum Key {
    Escape,
    Other,
}

/// An event of the renderer's own window.
#[derive(Clone, Copy, Debug, PartialEq, Eq, Structural)]
pub enum WindowEvent {
    /// The user asked to close the window.
    CloseRequested,
    /// A key went down (`pressed`) or up.
    KeyboardInput { pressed: bool, key: Key },
    /// The drawable area now has this size.
    Resized(PhysicalSize),
    /// The window wants its content drawn.
    RedrawRequested,
    /// Any event the renderer does not react to.
    Other,
}

impl WindowEvent {
    /// Closing the window and pressing Escape both end the frame loop.
    pub open spec fn requests_exit(self) -> bool {
        ||| self is CloseRequested
        ||| self == (WindowEvent::KeyboardInput { pressed: true, key: Key::Escape })
    }
}

/// What the caller of the frame loop has to do next.
#[derive(Clone, Copy, Debug, PartialEq, Eq, Structural)]
pub enum Command {
    /// Nothing; wait for the next event.
    Continue,
    /// Configure the surface with this configuration.
    Configure(SurfaceConfig),
    /// Upload the rotation for this angle, given in thousandths of a radian,
    /// then render a frame and report how it went.
    Draw { angle_millirad: u64 },
    /// Warn that the frame was skipped, then wait for the next event.
    SkipFrame,
    /// Leave the event loop.
    Exit,
}

impl Command {
    /// The command that carries out a change of configuration, if there is one.
    pub open spec fn configure(change: Option<SurfaceConfig>) -> Command {
        match change {
            Some(config) => Command::Configure(config),
            None => Command::Continue,
        }
    }
}

} // verus!
