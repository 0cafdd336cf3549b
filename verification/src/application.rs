//! The driver of the event loop.
//!
//! An [`Application`] is told what happened (an [`Input`]) and answers with
//! the operations to carry out, in order (a list of [`Command`]s). It touches
//! nothing itself. Apart from whether the loop is still running, all it
//! remembers is the size of the viewport and of the surface.

use vstd::prelude::*;
use crate::command::{Color, Command};
use crate::event::{Event, Input};
use crate::geometry::{SurfaceSize, Viewport};
use crate::timing::TimeStep;

verus! {

/// What the driver remembers from one call to the next.
pub struct State {
    /// The viewport that the scene is advanced and hit-tested against.
    pub viewport: Viewport,
    /// The dimensions the surface was last configured with.
    pub surface: SurfaceSize,
    /// False once the window has been asked to close.
    pub running: bool,
}

impl State {
    /// The state in which the event loop is entered: the viewport is still
    /// empty, and the surface has the size the window had when it was made.
    pub open spec fn initial(surface: SurfaceSize) -> State {
        State { viewport: Viewport::initial(), surface, running: true }
    }

    /// The state after a window event.
    pub open spec fn after_event(self, event: Event) -> State {
        if !self.running {
            self
        } else {
            match event {
                Event::Resized { width, height } => State {
                    viewport: Viewport { width, height },
                    surface: SurfaceSize { width, height },
                    running: true,
                },
                Event::CloseRequested => State {
                    viewport: self.viewport,
                    surface: self.surface,
                    running: false,
                },
                _ => self,
            }
        }
    }

    /// The operations that a window event calls for.
    pub open spec fn event_commands(self, event: Event) -> Seq<Command> {
        if !self.running {
            Seq::empty()
        } else {
            match event {
                Event::RedrawRequested => seq![
                    Command::AdvanceScene { delta: TimeStep::one_frame(), viewport: self.viewport },
                ],
                Event::Resized { width, height } => seq![
                    Command::ResizeViewport { width, height },
                    Command::ConfigureSurface { width, height },
                    Command::RequestRedraw,
                ],
                Event::CursorMoved { x, y } => seq![
                    Command::PointerMove { x, y, viewport: self.viewport },
                ],
                Event::CloseRequested => seq![Command::Exit],
                Event::Other => Seq::empty(),
            }
        }
    }

    /// The operations that follow once the scene has been advanced.
    pub open spec fn advanced_commands(self, frame_due: bool) -> Seq<Command> {
        if !self.running {
            Seq::empty()
        } else if frame_due {
            seq![Command::AcquireFrame]
        } else {
            seq![Command::PollDevice]
        }
    }

    /// The operations that follow once a frame buffer has been asked for.
    pub open spec fn acquired_commands(self, acquired: bool) -> Seq<Command> {
        if !self.running {
            Seq::empty()
        } else if acquired {
            seq![
                Command::Paint {
                    base_color: Color::white(),
                    width: self.surface.width,
                    height: self.surface.height,
                },
                Command::Present,
                Command::PollDevice,
            ]
        } else {
            seq![Command::PollDevice]
        }
    }

    /// The operations called for when the event loop runs out of events.
    pub open spec fn idle_commands(self) -> Seq<Command> {
        if self.running {
            seq![Command::RequestRedraw]
        } else {
            Seq::empty()
        }
    }

    /// The state after any input.
    pub open spec fn after(self, input: Input) -> State {
        match input {
            Input::Window(event) => self.after_event(event),
            _ => self,
        }
    }

    /// The operations that any input calls for.
    pub open spec fn commands(self, input: Input) -> Seq<Command> {
        match input {
            Input::Resumed => Seq::empty(),
            Input::Window(event) => self.event_commands(event),
            Input::AboutToWait => self.idle_commands(),
            Input::SceneAdvanced { frame_due } => self.advanced_commands(frame_due),
            Input::FrameAcquired { acquired } => self.acquired_commands(acquired),
        }
    }
}

/// The driver of the event loop.
#[derive(Debug)]
pub struct Application {
    viewport: Viewport,
    surface: SurfaceSize,
    running: bool,
}

impl View for Application {
    type V = State;

    closed spec fn view(&self) -> State {
        State { viewport: self.viewport, surface: self.surface, running: self.running }
    }
}

impl Application {
    /// A driver about to enter the event loop, for a surface of the given size.
    pub(crate) fn new(surface: SurfaceSize) -> (app: Application)
        ensures
            app@ == State::initial(surface),
    {
        Application { viewport: Viewport::default(), surface, running: true }
    }

    pub fn viewport(&self) -> (viewport: Viewport)
        ensures
            viewport == self@.viewport,
    {
        self.viewport
    }

    pub fn surface(&self) -> (surface: SurfaceSize)
        ensures
            surface == self@.surface,
    {
        self.surface
    }

    pub fn is_running(&self) -> (running: bool)
        ensures
            running == self@.running,
    {
        self.running
    }

    /// The event loop has (re)started the application. Nothing is to be done.
    pub fn resumed(&mut self) -> (commands: Vec<Command>)
        ensures
            final(self)@ == old(self)@,
            commands@ == Seq::<Command>::empty(),
    {
        Vec::new()
    }

    /// Reacts to an event of the window.
    ///
    /// A redraw request starts a redraw: the scene is to be advanced by one
    /// frame. A resize gives viewport and surface the new dimensions and asks
    /// for a redraw. A pointer move is passed to the scene. A close request
    /// ends the loop, and from then on nothing is reacted to any more.
    pub fn window_event(&mut self, event: Event) -> (commands: Vec<Command>)
        ensures
            final(self)@ == old(self)@.after_event(event),
            commands@ == old(self)@.event_commands(event),
    {
        if !self.running {
            return Vec::new();
        }
        match event {
            Event::RedrawRequested => {
                vec![Command::AdvanceScene { delta: TimeStep::frame(), viewport: self.viewport }]
            },
            Event::Resized { width, height } => {
                self.viewport.resize(width, height);
                self.surface = SurfaceSize::new(width, height);
                vec![
                    Command::ResizeViewport { width, height },
                    Command::ConfigureSurface { width, height },
                    Command::RequestRedraw,
                ]
            },
            Event::CursorMoved { x, y } => {
                vec![Command::PointerMove { x, y, viewport: self.viewport }]
            },
            Event::CloseRequested => {
                self.running = false;
                vec![Command::Exit]
            },
            Event::Other => Vec::new(),
        }
    }

    /// The event loop has run out of events: keep the animation going by
    /// asking for the next redraw.
    pub fn about_to_wait(&mut self) -> (commands: Vec<Command>)
        ensures
            final(self)@ == old(self)@,
            commands@ == old(self)@.idle_commands(),
    {
        if self.running {
            vec![Command::RequestRedraw]
        } else {
            Vec::new()
        }
    }

    /// Continues a redraw once the scene has been advanced. If a frame is due
    /// a frame buffer is asked for; if not, the redraw ends with a poll of the
    /// device.
    pub fn scene_advanced(&self, frame_due: bool) -> (commands: Vec<Command>)
        ensures
            commands@ == self@.advanced_commands(frame_due),
    {
        if !self.running {
            Vec::new()
        } else if frame_due {
            vec![Command::AcquireFrame]
        } else {
            vec![Command::PollDevice]
        }
    }

    /// Finishes a redraw once a frame buffer has been asked for. If there is
    /// one, the scene is painted into it over white and the frame is
    /// presented. If there is none, the frame is skipped. Either way the
    /// device is polled last.
    pub fn frame_acquired(&self, acquired: bool) -> (commands: Vec<Command>)
        ensures
            commands@ == self@.acquired_commands(acquired),
    {
        if !self.running {
            Vec::new()
        } else if acquired {
            vec![
                Command::Paint {
                    base_color: Color::opaque_white(),
                    width: self.surface.width,
                    height: self.surface.height,
                },
                Command::Present,
                Command::PollDevice,
            ]
        } else {
            vec![Command::PollDevice]
        }
    }

    /// Takes any input and answers with the operations it calls for.
    pub fn handle(&mut self, input: Input) -> (commands: Vec<Command>)
        ensures
            final(self)@ == old(self)@.after(input),
            commands@ == old(self)@.commands(input),
    {
        match input {
            Input::Resumed => self.resumed(),
            Input::Window(event) => self.window_event(event),
            Input::AboutToWait => self.about_to_wait(),
            Input::SceneAdvanced { frame_due } => self.scene_advanced(frame_due),
            Input::FrameAcquired { acquired } => self.frame_acquired(acquired),
        }
    }
}

} // verus!
