//! Whole runs of the driver: a starting state, the inputs it is handed one
//! after the other, the state it ends in and everything it asked for on the
//! way.
//!
//! A run is what repeated calls of `Application::handle` amount to: each call
//! moves the state on by `State::after` and answers with `State::commands`.

use vstd::prelude::*;
use crate::application::State;
use crate::command::{count, Color, Command, Kind};
use crate::event::{Event, Input};
use crate::timing::TimeStep;

verus! {

/// The state after a sequence of inputs, handled one after the other.
pub open spec fn run(start: State, inputs: Seq<Input>) -> State
    decreases inputs.len(),
{
    if inputs.len() == 0 {
        start
    } else {
        run(start, inputs.drop_last()).after(inputs.last())
    }
}

/// Every operation called for in the course of a sequence of inputs, in the
/// order in which they were called for.
pub open spec fn trace(start: State, inputs: Seq<Input>) -> Seq<Command>
    decreases inputs.len(),
{
    if inputs.len() == 0 {
        Seq::empty()
    } else {
        trace(start, inputs.drop_last()) + run(start, inputs.drop_last()).commands(inputs.last())
    }
}

/// Handling one more input continues the run from where it stood.
pub proof fn lemma_one_more(start: State, inputs: Seq<Input>, input: Input)
    ensures
        run(start, inputs.push(input)) == run(start, inputs).after(input),
        trace(start, inputs.push(input)) == trace(start, inputs) + run(start, inputs).commands(
            input,
        ),
{
    assert(inputs.push(input).drop_last() =~= inputs);
}

/// A run over two sequences joined is the run over the first, continued by
/// the run over the second.
pub proof fn lemma_continue(start: State, first: Seq<Input>, second: Seq<Input>)
    ensures
        run(start, first + second) == run(run(start, first), second),
        trace(start, first + second) == trace(start, first) + trace(run(start, first), second),
    decreases second.len(),
{
    if second.len() == 0 {
        assert(first + second =~= first);
        assert(trace(start, first) + Seq::<Command>::empty() =~= trace(start, first));
    } else {
        let front = second.drop_last();
        lemma_continue(start, first, front);
        assert((first + second).drop_last() =~= first + front);
        assert((first + second).last() == second.last());
        let mid = run(start, first);
        let step = run(mid, front).commands(second.last());
        assert((trace(start, first) + trace(mid, front)) + step =~= trace(start, first) + (trace(
            mid,
            front,
        ) + step));
    }
}

/// What the outside world answers in the course of one redraw.
pub struct Answers {
    /// Whether the scene, once advanced, has a frame to show.
    pub frame_due: bool,
    /// Whether a frame buffer could be obtained. Only asked if a frame is due.
    pub acquired: bool,
}

impl Answers {
    /// Whether this redraw puts a frame on the screen.
    pub open spec fn shown(self) -> bool {
        self.frame_due && self.acquired
    }
}

/// The inputs of one complete redraw: the request for it, the answer of the
/// scene and, if a frame is due, the answer of the surface.
pub open spec fn redraw(answers: Answers) -> Seq<Input> {
    if answers.frame_due {
        seq![
            Input::Window(Event::RedrawRequested),
            Input::SceneAdvanced { frame_due: true },
            Input::FrameAcquired { acquired: answers.acquired },
        ]
    } else {
        seq![Input::Window(Event::RedrawRequested), Input::SceneAdvanced { frame_due: false }]
    }
}

/// The inputs of a series of complete redraws.
pub open spec fn redraws(answers: Seq<Answers>) -> Seq<Input>
    decreases answers.len(),
{
    if answers.len() == 0 {
        Seq::empty()
    } else {
        redraws(answers.drop_last()) + redraw(answers.last())
    }
}

/// In how many redraws of a series a frame is due.
pub open spec fn frames_due(answers: Seq<Answers>) -> nat
    decreases answers.len(),
{
    if answers.len() == 0 {
        0
    } else {
        frames_due(answers.drop_last()) + if answers.last().frame_due {
            1nat
        } else {
            0nat
        }
    }
}

/// How many redraws of a series put a frame on the screen.
pub open spec fn frames_shown(answers: Seq<Answers>) -> nat
    decreases answers.len(),
{
    if answers.len() == 0 {
        0
    } else {
        frames_shown(answers.drop_last()) + if answers.last().shown() {
            1nat
        } else {
            0nat
        }
    }
}

/// The operations of one complete redraw, written out.
pub open spec fn redraw_commands(state: State, answers: Answers) -> Seq<Command> {
    let advance = Command::AdvanceScene { delta: TimeStep::one_frame(), viewport: state.viewport };
    let paint = Command::Paint {
        base_color: Color::white(),
        width: state.surface.width,
        height: state.surface.height,
    };
    if !answers.frame_due {
        seq![advance, Command::PollDevice]
    } else if !answers.acquired {
        seq![advance, Command::AcquireFrame, Command::PollDevice]
    } else {
        seq![advance, Command::AcquireFrame, paint, Command::Present, Command::PollDevice]
    }
}

/// One complete redraw leaves the state as it was and calls for exactly the
/// operations of `redraw_commands`.
pub proof fn lemma_redraw(state: State, answers: Answers)
    requires
        state.running,
    ensures
        run(state, redraw(answers)) == state,
        trace(state, redraw(answers)) == redraw_commands(state, answers),
{
    let none = Seq::<Input>::empty();
    let request = Input::Window(Event::RedrawRequested);
    let advanced = Input::SceneAdvanced { frame_due: answers.frame_due };
    lemma_one_more(state, none, request);
    lemma_one_more(state, none.push(request), advanced);
    assert(Seq::<Command>::empty() + state.commands(request) =~= state.commands(request));
    if answers.frame_due {
        let acquired = Input::FrameAcquired { acquired: answers.acquired };
        lemma_one_more(state, none.push(request).push(advanced), acquired);
        assert(redraw(answers) =~= none.push(request).push(advanced).push(acquired));
        assert(trace(state, redraw(answers)) =~= redraw_commands(state, answers));
    } else {
        assert(redraw(answers) =~= none.push(request).push(advanced));
        assert(trace(state, redraw(answers)) =~= redraw_commands(state, answers));
    }
}

/// How many operations of each kind one complete redraw calls for.
pub proof fn lemma_redraw_counts(state: State, answers: Answers)
    ensures
        count(redraw_commands(state, answers), Kind::AdvanceScene) == 1,
        count(redraw_commands(state, answers), Kind::PollDevice) == 1,
        count(redraw_commands(state, answers), Kind::AcquireFrame) == if answers.frame_due {
            1nat
        } else {
            0nat
        },
        count(redraw_commands(state, answers), Kind::Paint) == if answers.shown() {
            1nat
        } else {
            0nat
        },
        count(redraw_commands(state, answers), Kind::Present) == if answers.shown() {
            1nat
        } else {
            0nat
        },
{
    reveal_with_fuel(count, 6);
}

} // verus!
