//! What the driver is told.

use vstd::prelude::*;
use crate::geometry::Coordinate;

verus! {

/// An event of the window, reduced to what the driver reads of it.
#[derive(Clone, Copy, Debug, PartialEq, Eq, Structural)]
pub enum Event {
    /// The window wants its contents drawn.
    RedrawRequested,
    /// The window has a new inner size, in pixels.
    Resized { width: u32, height: u32 },
    /// The pointer has moved to a new position inside the window.
    CursorMoved { x: Coordinate, y: Coordinate },
    /// The user asked for the window to be closed.
    CloseRequested,
    /// Any other event. The driver does not react to it.
    Other,
}

/// Everything that can be handed to the driver: a call of the event loop, or
/// the answer to a question the driver asked.
#[derive(Clone, Copy, Debug, PartialEq, Eq, Structural)]
pub enum Input {
    /// The event loop has (re)started the application.
    Resumed,
    /// The window system delivered an event for the window.
    Window(Event),
    /// The event loop has run out of events and is about to block.
    AboutToWait,
    /// The scene was advanced; `frame_due` tells whether it has a frame to show.
    SceneAdvanced { frame_due: bool },
    /// A frame buffer was asked for; `acquired` tells whether one was obtained.
    FrameAcquired { acquired: bool },
}

} // verus!
