//! What the driver asks the outside world to do.

use vstd::prelude::*;
use crate::geometry::{Coordinate, Viewport};
use crate::timing::TimeStep;

verus! {

/// A colour with eight bits per channel.
#[derive(Clone, Copy, Debug, PartialEq, Eq, Structural)]
pub struct Color {
    pub red: u8,
    pub green: u8,
    pub blue: u8,
    pub alpha: u8,
}

impl Color {
    /// Opaque white.
    pub open spec fn white() -> Color {
        Color { red: 255, green: 255, blue: 255, alpha: 255 }
    }

    pub fn opaque_white() -> (color: Color)
        ensures
            color == Color::white(),
    {
        Color { red: 255, green: 255, blue: 255, alpha: 255 }
    }
}

/// One operation for the outside world to carry out.
///
/// Two of them are questions: `AdvanceScene` is answered by whether a frame
/// is due, `AcquireFrame` by whether a frame buffer could be had. The driver
/// is told the answer before anything else happens.
#[derive(Clone, Copy, Debug, PartialEq, Eq, Structural)]
pub enum Command {
    /// Step the animation by `delta`, against `viewport`.
    AdvanceScene { delta: TimeStep, viewport: Viewport },
    /// Obtain the next frame buffer of the surface.
    AcquireFrame,
    /// Render the scene into the frame buffer just obtained, over a
    /// background of `base_color`, at the given target dimensions.
    Paint { base_color: Color, width: u32, height: u32 },
    /// Show the frame buffer just painted.
    Present,
    /// Let the graphics device collect work it has completed.
    PollDevice,
    /// Give the viewport of the animation new dimensions.
    ResizeViewport { width: u32, height: u32 },
    /// Reconfigure the surface for new dimensions.
    ConfigureSurface { width: u32, height: u32 },
    /// Ask the window system for a redraw.
    RequestRedraw,
    /// Tell the scene where the pointer is, against `viewport`.
    PointerMove { x: Coordinate, y: Coordinate, viewport: Viewport },
    /// Leave the event loop.
    Exit,
}

/// The kind of a command, without what it carries.
#[derive(Clone, Copy, Debug, PartialEq, Eq, Structural)]
pub enum Kind {
    AdvanceScene,
    AcquireFrame,
    Paint,
    Present,
    PollDevice,
    ResizeViewport,
    ConfigureSurface,
    RequestRedraw,
    PointerMove,
    Exit,
}

impl Command {
    /// The kind of this command.
    pub open spec fn spec_kind(self) -> Kind {
        match self {
            Command::AdvanceScene { .. } => Kind::AdvanceScene,
            Command::AcquireFrame => Kind::AcquireFrame,
            Command::Paint { .. } => Kind::Paint,
            Command::Present => Kind::Present,
            Command::PollDevice => Kind::PollDevice,
            Command::ResizeViewport { .. } => Kind::ResizeViewport,
            Command::ConfigureSurface { .. } => Kind::ConfigureSurface,
            Command::RequestRedraw => Kind::RequestRedraw,
            Command::PointerMove { .. } => Kind::PointerMove,
            Command::Exit => Kind::Exit,
        }
    }

    /// The kind of this command.
    #[verifier::when_used_as_spec(spec_kind)]
    pub fn kind(self) -> (kind: Kind)
        ensures
            kind == self.spec_kind(),
    {
        match self {
            Command::AdvanceScene { .. } => Kind::AdvanceScene,
            Command::AcquireFrame => Kind::AcquireFrame,
            Command::Paint { .. } => Kind::Paint,
            Command::Present => Kind::Present,
            Command::PollDevice => Kind::PollDevice,
            Command::ResizeViewport { .. } => Kind::ResizeViewport,
            Command::ConfigureSurface { .. } => Kind::ConfigureSurface,
            Command::RequestRedraw => Kind::RequestRedraw,
            Command::PointerMove { .. } => Kind::PointerMove,
            Command::Exit => Kind::Exit,
        }
    }

    /// Whether the outside world answers this command. The answer to
    /// `AdvanceScene` is whether a frame is due; the answer to
    /// `AcquireFrame` is whether a frame buffer was obtained.
    pub open spec fn spec_is_question(self) -> bool {
        self is AdvanceScene || self is AcquireFrame
    }

    /// Whether the outside world answers this command.
    #[verifier::when_used_as_spec(spec_is_question)]
    pub fn is_question(self) -> (question: bool)
        ensures
            question == self.spec_is_question(),
    {
        match self {
            Command::AdvanceScene { .. } => true,
            Command::AcquireFrame => true,
            _ => false,
        }
    }
}

/// How many commands of a kind a sequence holds.
pub open spec fn count(commands: Seq<Command>, kind: Kind) -> nat
    decreases commands.len(),
{
    if commands.len() == 0 {
        0
    } else {
        count(commands.drop_last(), kind) + if commands.last().spec_kind() == kind {
            1nat
        } else {
            0nat
        }
    }
}

/// Counting over two sequences joined is counting over each and adding up.
pub proof fn lemma_count_add(first: Seq<Command>, second: Seq<Command>, kind: Kind)
    ensures
        count(first + second, kind) == count(first, kind) + count(second, kind),
    decreases second.len(),
{
    if second.len() == 0 {
        assert(first + second =~= first);
    } else {
        assert((first + second).drop_last() =~= first + second.drop_last());
        assert((first + second).last() == second.last());
        lemma_count_add(first, second.drop_last(), kind);
    }
}

} // verus!
