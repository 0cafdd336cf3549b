//! The one-time startup sequence.
//!
//! Before the event loop is entered, six things are set up, each needing the
//! ones before it: the window, the GPU context, the surface, the renderer,
//! the animation asset, and the scene. If any of them fails the program
//! stops there and then. Only when all six are in place is there an
//! [`Application`], and only an application reacts to events.

use vstd::prelude::*;
use crate::application::{Application, State};
use crate::geometry::SurfaceSize;

verus! {

/// The width of the window when it is opened, in logical pixels.
pub const WINDOW_WIDTH: u32 = 500;

/// The height of the window when it is opened, in logical pixels.
pub const WINDOW_HEIGHT: u32 = 500;

/// The title of the window.
pub fn window_title() -> (title: &'static str)
    ensures
        title@ == "Rive demo"@,
{
    "Rive demo"
}

/// One stage of the startup sequence.
#[derive(Clone, Copy, Debug, PartialEq, Eq, Structural)]
pub enum Stage {
    /// Open the window.
    Window,
    /// Set up the GPU context.
    GpuContext,
    /// Create the surface that presents into the window.
    Surface,
    /// Create the renderer.
    Renderer,
    /// Parse the animation asset.
    Asset,
    /// Instantiate the scene from the asset.
    Scene,
}

impl Stage {
    /// The number of stages.
    pub open spec fn count() -> nat {
        6
    }

    /// The place of a stage in the sequence, counted from zero.
    pub open spec fn index(self) -> nat {
        match self {
            Stage::Window => 0,
            Stage::GpuContext => 1,
            Stage::Surface => 2,
            Stage::Renderer => 3,
            Stage::Asset => 4,
            Stage::Scene => 5,
        }
    }

    /// The stage that comes after this one, if any.
    pub open spec fn following(self) -> Option<Stage> {
        match self {
            Stage::Window => Some(Stage::GpuContext),
            Stage::GpuContext => Some(Stage::Surface),
            Stage::Surface => Some(Stage::Renderer),
            Stage::Renderer => Some(Stage::Asset),
            Stage::Asset => Some(Stage::Scene),
            Stage::Scene => None,
        }
    }

    /// The stage that comes after this one, if any.
    pub fn next(self) -> (next: Option<Stage>)
        ensures
            next == self.following(),
            next matches Some(stage) ==> stage.index() == self.index() + 1,
            next is None <==> self.index() + 1 == Stage::count(),
    {
        match self {
            Stage::Window => Some(Stage::GpuContext),
            Stage::GpuContext => Some(Stage::Surface),
            Stage::Surface => Some(Stage::Renderer),
            Stage::Renderer => Some(Stage::Asset),
            Stage::Asset => Some(Stage::Scene),
            Stage::Scene => None,
        }
    }
}

/// How far the startup sequence has come.
#[derive(Clone, Copy, Debug, PartialEq, Eq, Structural)]
pub enum Progress {
    /// The given stage is the next to be carried out.
    Pending(Stage),
    /// Every stage has succeeded.
    Ready,
    /// The given stage failed. Nothing more will be done.
    Aborted(Stage),
}

impl Progress {
    /// Where the sequence stands once the outcome of the pending stage is
    /// known. A sequence that is ready or aborted stays as it is.
    pub open spec fn after(self, succeeded: bool) -> Progress {
        match self {
            Progress::Pending(stage) => {
                if !succeeded {
                    Progress::Aborted(stage)
                } else {
                    match stage.following() {
                        Some(next) => Progress::Pending(next),
                        None => Progress::Ready,
                    }
                }
            },
            _ => self,
        }
    }
}

/// Where a startup sequence stands once it has been told the given outcomes,
/// one for each stage it has carried out, in order.
pub open spec fn progress_after(outcomes: Seq<bool>) -> Progress
    decreases outcomes.len(),
{
    if outcomes.len() == 0 {
        Progress::Pending(Stage::Window)
    } else {
        progress_after(outcomes.drop_last()).after(outcomes.last())
    }
}

/// The startup sequence in progress.
#[derive(Debug)]
pub struct Startup {
    progress: Progress,
}

impl View for Startup {
    type V = Progress;

    closed spec fn view(&self) -> Progress {
        self.progress
    }
}

impl Startup {
    /// A sequence of which nothing has been done yet.
    pub fn begin() -> (startup: Startup)
        ensures
            startup@ == Progress::Pending(Stage::Window),
    {
        Startup { progress: Progress::Pending(Stage::Window) }
    }

    /// Where the sequence stands.
    pub fn progress(&self) -> (progress: Progress)
        ensures
            progress == self@,
    {
        self.progress
    }

    /// Records whether the pending stage succeeded, and tells where the
    /// sequence stands now.
    pub fn report(&mut self, succeeded: bool) -> (progress: Progress)
        ensures
            final(self)@ == old(self)@.after(succeeded),
            progress == final(self)@,
    {
        match self.progress {
            Progress::Pending(stage) => {
                if !succeeded {
                    self.progress = Progress::Aborted(stage);
                } else {
                    match stage.next() {
                        Some(next) => {
                            self.progress = Progress::Pending(next);
                        },
                        None => {
                            self.progress = Progress::Ready;
                        },
                    }
                }
            },
            _ => {},
        }
        self.progress
    }

    /// Hands out the application once every stage has succeeded, for a
    /// surface of the given size. Before that, and after a failure, there is
    /// none.
    pub fn launch(self, surface: SurfaceSize) -> (app: Option<Application>)
        ensures
            app is Some <==> self@ == Progress::Ready,
            app matches Some(a) ==> a@ == State::initial(surface),
    {
        match self.progress {
            Progress::Ready => Some(Application::new(surface)),
            _ => None,
        }
    }
}

} // verus!
