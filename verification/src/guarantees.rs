//! What holds of every run of the driver.

use vstd::prelude::*;
use crate::application::State;
use crate::command::{count, lemma_count_add, Color, Command, Kind};
use crate::event::{Event, Input};
use crate::geometry::{Coordinate, SurfaceSize, Viewport};
use crate::startup::{progress_after, Progress, Stage};
use crate::session::{
    frames_due, frames_shown, lemma_continue, lemma_one_more, lemma_redraw, lemma_redraw_counts,
    redraw, redraw_commands, redraws, run, trace, Answers,
};
use crate::timing::TimeStep;

verus! {

/// Whether the command at position `i` is in step with its neighbours: if it
/// is a paint, the next command is a present, and if it is a present, the
/// command before it is a paint.
pub open spec fn in_step(commands: Seq<Command>, i: int) -> bool {
    &&& commands[i].kind() == Kind::Paint ==> i + 1 < commands.len() && commands[i + 1].kind()
        == Kind::Present
    &&& commands[i].kind() == Kind::Present ==> 0 < i && commands[i - 1].kind() == Kind::Paint
}

/// Every paint is followed at once by a present, and every present follows
/// at once upon a paint.
pub open spec fn paints_are_presented(commands: Seq<Command>) -> bool {
    forall|i: int| 0 <= i < commands.len() ==> #[trigger] in_step(commands, i)
}

/// A resize to dimensions that are not zero gives the viewport exactly those
/// dimensions, and the surface too, and asks for a redraw exactly once.
pub proof fn resize_takes_effect(state: State, width: u32, height: u32)
    requires
        state.running,
        width > 0,
        height > 0,
    ensures
        state.after_event(Event::Resized { width, height }).viewport == (Viewport { width, height }),
        state.after_event(Event::Resized { width, height }).surface == (SurfaceSize {
            width,
            height,
        }),
        state.after_event(Event::Resized { width, height }).running,
        count(state.event_commands(Event::Resized { width, height }), Kind::RequestRedraw) == 1,
        count(state.event_commands(Event::Resized { width, height }), Kind::ResizeViewport) == 1,
        count(state.event_commands(Event::Resized { width, height }), Kind::ConfigureSurface) == 1,
{
    reveal_with_fuel(count, 4);
}

/// Every advance among the commands is by one frame and against the viewport
/// of `state`, and every paint is over white and at the size of the surface
/// of `state`.
pub open spec fn drawn_as_in(state: State, commands: Seq<Command>) -> bool {
    &&& forall|i: int|
        0 <= i < commands.len() && (#[trigger] commands[i]).kind() == Kind::AdvanceScene
            ==> commands[i] == (Command::AdvanceScene {
            delta: TimeStep::one_frame(),
            viewport: state.viewport,
        })
    &&& forall|i: int|
        0 <= i < commands.len() && (#[trigger] commands[i]).kind() == Kind::Paint ==> commands[i]
            == (Command::Paint {
            base_color: Color::white(),
            width: state.surface.width,
            height: state.surface.height,
        })
}

/// Two sequences of commands that each have their paints presented still
/// have them presented when they are joined.
proof fn lemma_joined_in_step(first: Seq<Command>, second: Seq<Command>)
    requires
        paints_are_presented(first),
        paints_are_presented(second),
    ensures
        paints_are_presented(first + second),
{
    let whole = first + second;
    assert forall|i: int| 0 <= i < whole.len() implies #[trigger] in_step(whole, i) by {
        if i < first.len() {
            assert(in_step(first, i));
            assert(whole[i] == first[i]);
            if first[i].kind() == Kind::Paint {
                assert(whole[i + 1] == first[i + 1]);
            }
            if first[i].kind() == Kind::Present {
                assert(whole[i - 1] == first[i - 1]);
            }
        } else {
            let j = i - first.len();
            assert(in_step(second, j));
            assert(whole[i] == second[j]);
            if second[j].kind() == Kind::Paint {
                assert(whole[i + 1] == second[j + 1]);
            }
            if second[j].kind() == Kind::Present {
                assert(whole[i - 1] == second[j - 1]);
            }
        }
    }
}

/// Two sequences of commands that are each drawn as in a state are so when
/// they are joined.
proof fn lemma_joined_drawn_as_in(state: State, first: Seq<Command>, second: Seq<Command>)
    requires
        drawn_as_in(state, first),
        drawn_as_in(state, second),
    ensures
        drawn_as_in(state, first + second),
{
    let whole = first + second;
    assert forall|i: int| 0 <= i < whole.len() implies {
        &&& (#[trigger] whole[i]).kind() == Kind::AdvanceScene ==> whole[i]
            == (Command::AdvanceScene { delta: TimeStep::one_frame(), viewport: state.viewport })
        &&& whole[i].kind() == Kind::Paint ==> whole[i] == (Command::Paint {
            base_color: Color::white(),
            width: state.surface.width,
            height: state.surface.height,
        })
    } by {
        if i < first.len() {
            assert(whole[i] == first[i]);
        } else {
            assert(whole[i] == second[i - first.len()]);
        }
    }
}

/// What one input calls for has its paints presented, and is drawn as in
/// the state in which the input is handled.
proof fn lemma_one_input(state: State, input: Input)
    ensures
        paints_are_presented(state.commands(input)),
        drawn_as_in(state, state.commands(input)),
        count(state.commands(input), Kind::Paint) == count(state.commands(input), Kind::Present),
{
    let commands = state.commands(input);
    reveal_with_fuel(count, 4);
    assert forall|i: int| 0 <= i < commands.len() implies #[trigger] in_step(commands, i) by {
        if commands[i].kind() == Kind::Paint {
            assert(i == 0);
            assert(commands[1].kind() == Kind::Present);
        }
        if commands[i].kind() == Kind::Present {
            assert(i == 1);
            assert(commands[0].kind() == Kind::Paint);
        }
    }
}

/// A series of complete redraws, whatever the scene and the surface answer:
/// the state stays as it was; the scene is advanced once per redraw, always by
/// one frame and against the same viewport; a frame buffer is asked for
/// whenever a frame is due; a frame is painted and presented whenever a frame
/// buffer was obtained, over white and at the size of the surface; and the
/// device is polled once per redraw.
pub proof fn redraw_series_is_regular(state: State, answers: Seq<Answers>)
    requires
        state.running,
    ensures
        run(state, redraws(answers)) == state,
        count(trace(state, redraws(answers)), Kind::AdvanceScene) == answers.len(),
        count(trace(state, redraws(answers)), Kind::AcquireFrame) == frames_due(answers),
        count(trace(state, redraws(answers)), Kind::Paint) == frames_shown(answers),
        count(trace(state, redraws(answers)), Kind::Present) == frames_shown(answers),
        count(trace(state, redraws(answers)), Kind::PollDevice) == answers.len(),
        drawn_as_in(state, trace(state, redraws(answers))),
        paints_are_presented(trace(state, redraws(answers))),
    decreases answers.len(),
{
    if answers.len() > 0 {
        let front = answers.drop_last();
        let last = answers.last();
        redraw_series_is_regular(state, front);
        lemma_continue(state, redraws(front), redraw(last));
        lemma_redraw(state, last);
        let before = trace(state, redraws(front));
        let frame = redraw_commands(state, last);
        assert(trace(state, redraws(answers)) == before + frame);
        lemma_redraw_counts(state, last);
        lemma_count_add(before, frame, Kind::AdvanceScene);
        lemma_count_add(before, frame, Kind::AcquireFrame);
        lemma_count_add(before, frame, Kind::Paint);
        lemma_count_add(before, frame, Kind::Present);
        lemma_count_add(before, frame, Kind::PollDevice);
        lemma_redraw_in_step(state, last);
        lemma_joined_in_step(before, frame);
        lemma_joined_drawn_as_in(state, before, frame);
    }
}

/// The operations of one complete redraw have their paints presented and
/// are drawn as in the state in which the redraw takes place.
proof fn lemma_redraw_in_step(state: State, answers: Answers)
    ensures
        paints_are_presented(redraw_commands(state, answers)),
        drawn_as_in(state, redraw_commands(state, answers)),
{
    let frame = redraw_commands(state, answers);
    assert forall|i: int| 0 <= i < frame.len() implies #[trigger] in_step(frame, i) by {
        if frame[i].kind() == Kind::Paint {
            assert(i == 2);
            assert(frame[3].kind() == Kind::Present);
        }
        if frame[i].kind() == Kind::Present {
            assert(i == 3);
            assert(frame[2].kind() == Kind::Paint);
        }
    }
}

/// In every run, whatever it is handed and in whatever order: each paint is
/// followed at once by a present and each present follows at once upon a
/// paint, so that there are as many of the one as of the other; the scene is
/// only ever advanced by one sixtieth of a second; and frames are only ever
/// painted over white.
pub proof fn every_run_presents_what_it_paints(start: State, inputs: Seq<Input>)
    ensures
        paints_are_presented(trace(start, inputs)),
        count(trace(start, inputs), Kind::Paint) == count(trace(start, inputs), Kind::Present),
        forall|i: int|
            0 <= i < trace(start, inputs).len() && (#[trigger] trace(start, inputs)[i]).kind()
                == Kind::AdvanceScene ==> trace(start, inputs)[i]->delta == (TimeStep {
                numerator: 1,
                denominator: 60,
            }),
        forall|i: int|
            0 <= i < trace(start, inputs).len() && (#[trigger] trace(start, inputs)[i]).kind()
                == Kind::Paint ==> trace(start, inputs)[i]->base_color == Color::white(),
    decreases inputs.len(),
{
    if inputs.len() > 0 {
        let front = inputs.drop_last();
        every_run_presents_what_it_paints(start, front);
        let before = trace(start, front);
        let state = run(start, front);
        let step = state.commands(inputs.last());
        lemma_one_input(state, inputs.last());
        lemma_joined_in_step(before, step);
        lemma_count_add(before, step, Kind::Paint);
        lemma_count_add(before, step, Kind::Present);
        let whole = before + step;
        assert forall|i: int| 0 <= i < whole.len() implies {
            &&& (#[trigger] whole[i]).kind() == Kind::AdvanceScene ==> whole[i]->delta
                == TimeStep::one_frame()
            &&& whole[i].kind() == Kind::Paint ==> whole[i]->base_color == Color::white()
        } by {
            if i < before.len() {
                assert(whole[i] == before[i]);
            } else {
                assert(whole[i] == step[i - before.len()]);
            }
        }
    }
}

/// How many redraw requests of a run reach a driver that is still running.
pub open spec fn redraws_begun(start: State, inputs: Seq<Input>) -> nat
    decreases inputs.len(),
{
    if inputs.len() == 0 {
        0
    } else {
        redraws_begun(start, inputs.drop_last()) + if run(start, inputs.drop_last()).running
            && inputs.last() == Input::Window(Event::RedrawRequested) {
            1nat
        } else {
            0nat
        }
    }
}

/// In every run the scene is advanced exactly once for each redraw request
/// that reaches the running driver, and never otherwise.
pub proof fn scene_advances_once_per_redraw(start: State, inputs: Seq<Input>)
    ensures
        count(trace(start, inputs), Kind::AdvanceScene) == redraws_begun(start, inputs),
    decreases inputs.len(),
{
    if inputs.len() > 0 {
        let front = inputs.drop_last();
        scene_advances_once_per_redraw(start, front);
        let step = run(start, front).commands(inputs.last());
        lemma_count_add(trace(start, front), step, Kind::AdvanceScene);
        assert(count(step, Kind::AdvanceScene) == if run(start, front).running && inputs.last()
            == Input::Window(Event::RedrawRequested) {
            1nat
        } else {
            0nat
        }) by {
            reveal_with_fuel(count, 4);
        }
    }
}

/// Where a frame buffer is always obtained, as many frames are shown as are
/// due.
proof fn lemma_all_acquired(answers: Seq<Answers>)
    requires
        forall|i: int| 0 <= i < answers.len() ==> (#[trigger] answers[i]).acquired,
    ensures
        frames_shown(answers) == frames_due(answers),
    decreases answers.len(),
{
    if answers.len() > 0 {
        let front = answers.drop_last();
        assert forall|i: int| 0 <= i < front.len() implies (#[trigger] front[i]).acquired by {
            assert(front[i] == answers[i]);
        }
        lemma_all_acquired(front);
        assert(answers.last() == answers[answers.len() - 1]);
    }
}

/// In a series of redraws in which a frame buffer is obtained every time it
/// is asked for, the scene is advanced exactly once per redraw, each time by
/// one sixtieth of a second, every frame that is due is painted, and every
/// paint is followed by exactly one present.
pub proof fn redraws_advance_once_and_present_each_paint(state: State, answers: Seq<Answers>)
    requires
        state.running,
        forall|i: int| 0 <= i < answers.len() ==> (#[trigger] answers[i]).acquired,
    ensures
        count(trace(state, redraws(answers)), Kind::AdvanceScene) == answers.len(),
        forall|i: int|
            0 <= i < trace(state, redraws(answers)).len() && (#[trigger] trace(
                state,
                redraws(answers),
            )[i]).kind() == Kind::AdvanceScene ==> trace(state, redraws(answers))[i]->delta
                == (TimeStep { numerator: 1, denominator: 60 }),
        count(trace(state, redraws(answers)), Kind::Paint) == frames_due(answers),
        count(trace(state, redraws(answers)), Kind::Present) == count(
            trace(state, redraws(answers)),
            Kind::Paint,
        ),
        paints_are_presented(trace(state, redraws(answers))),
{
    redraw_series_is_regular(state, answers);
    lemma_all_acquired(answers);
}

/// A redraw for which no frame buffer can be had: the scene may have been
/// advanced, and is, once; nothing is painted and nothing presented; the
/// redraw ends with a poll of the device; and the driver goes on as before.
pub proof fn failed_acquisition_skips_the_frame(state: State, frame_due: bool)
    requires
        state.running,
    ensures
        ({
            let answers = Answers { frame_due, acquired: false };
            &&& run(state, redraw(answers)) == state
            &&& count(trace(state, redraw(answers)), Kind::AdvanceScene) == 1
            &&& count(trace(state, redraw(answers)), Kind::Paint) == 0
            &&& count(trace(state, redraw(answers)), Kind::Present) == 0
            &&& trace(state, redraw(answers)).last() == Command::PollDevice
        }),
{
    let answers = Answers { frame_due, acquired: false };
    lemma_redraw(state, answers);
    lemma_redraw_counts(state, answers);
}

/// A pointer move is passed to the scene with exactly the coordinates that
/// were reported and the viewport as it is at that moment. Nothing else is
/// asked for, and the state stays as it was.
pub proof fn pointer_move_is_passed_on(state: State, x: Coordinate, y: Coordinate)
    requires
        state.running,
    ensures
        state.event_commands(Event::CursorMoved { x, y }) == seq![
            Command::PointerMove { x, y, viewport: state.viewport },
        ],
        state.after_event(Event::CursorMoved { x, y }) == state,
{
}

/// A driver that is no longer running stays as it is and asks for nothing,
/// whatever it is handed.
pub proof fn stopped_driver_does_nothing(state: State, inputs: Seq<Input>)
    requires
        !state.running,
    ensures
        run(state, inputs) == state,
        trace(state, inputs) == Seq::<Command>::empty(),
    decreases inputs.len(),
{
    if inputs.len() > 0 {
        stopped_driver_does_nothing(state, inputs.drop_last());
        assert(Seq::<Command>::empty() + Seq::<Command>::empty() =~= Seq::<Command>::empty());
    }
}

/// A close request ends the loop: the driver asks for the exit, once, and
/// whatever is handed to it afterwards changes nothing and calls for nothing.
pub proof fn nothing_happens_after_close(start: State, before: Seq<Input>, after: Seq<Input>)
    ensures
        ({
            let close = Input::Window(Event::CloseRequested);
            let closing = before.push(close);
            &&& !run(start, closing).running
            &&& run(start, before).running ==> trace(start, closing) == trace(start, before).push(
                Command::Exit,
            )
            &&& run(start, closing + after) == run(start, closing)
            &&& trace(start, closing + after) == trace(start, closing)
        }),
{
    let close = Input::Window(Event::CloseRequested);
    let closing = before.push(close);
    lemma_one_more(start, before, close);
    lemma_continue(start, closing, after);
    stopped_driver_does_nothing(run(start, closing), after);
    assert(trace(start, closing) + Seq::<Command>::empty() =~= trace(start, closing));
    if run(start, before).running {
        assert(trace(start, before) + seq![Command::Exit] =~= trace(start, before).push(
            Command::Exit,
        ));
    }
}

/// The dimensions of the most recent resize among the inputs, if there is one.
pub open spec fn last_resize(inputs: Seq<Input>) -> Option<(u32, u32)>
    decreases inputs.len(),
{
    if inputs.len() == 0 {
        None
    } else {
        match inputs.last() {
            Input::Window(Event::Resized { width, height }) => Some((width, height)),
            _ => last_resize(inputs.drop_last()),
        }
    }
}

/// As long as the window is not asked to close, the surface and the viewport
/// have the dimensions of the most recent resize. Before the first resize
/// they have the dimensions they started with.
pub proof fn sizes_follow_the_last_resize(start: State, inputs: Seq<Input>)
    requires
        start.running,
        forall|i: int|
            0 <= i < inputs.len() ==> #[trigger] inputs[i] != Input::Window(Event::CloseRequested),
    ensures
        run(start, inputs).running,
        match last_resize(inputs) {
            Some((width, height)) => {
                &&& run(start, inputs).surface == (SurfaceSize { width, height })
                &&& run(start, inputs).viewport == (Viewport { width, height })
            },
            None => {
                &&& run(start, inputs).surface == start.surface
                &&& run(start, inputs).viewport == start.viewport
            },
        },
    decreases inputs.len(),
{
    if inputs.len() > 0 {
        let front = inputs.drop_last();
        assert forall|i: int| 0 <= i < front.len() implies #[trigger] front[i] != Input::Window(
            Event::CloseRequested,
        ) by {
            assert(front[i] == inputs[i]);
        }
        sizes_follow_the_last_resize(start, front);
        assert(inputs.last() == inputs[inputs.len() - 1]);
    }
}

/// Of the operations that one input calls for, at most one is a question to
/// the outside world, and if there is one it comes last.
pub proof fn questions_come_last(state: State, input: Input)
    ensures
        forall|i: int|
            0 <= i < state.commands(input).len() && (#[trigger] state.commands(
                input,
            )[i]).is_question() ==> i + 1 == state.commands(input).len(),
{
}

/// What the progress of a startup sequence says of the outcomes it was told:
/// while a stage is pending, all stages before it have succeeded and no more
/// was told; once it is ready, all six stages have succeeded; once it is
/// aborted, the stage it names is the first that failed.
pub proof fn progress_tells_the_outcomes(outcomes: Seq<bool>)
    ensures
        match progress_after(outcomes) {
            Progress::Pending(stage) => {
                &&& outcomes.len() == stage.index()
                &&& forall|i: int| 0 <= i < outcomes.len() ==> outcomes[i]
            },
            Progress::Ready => {
                &&& outcomes.len() >= Stage::count()
                &&& forall|i: int| 0 <= i < Stage::count() ==> outcomes[i]
            },
            Progress::Aborted(stage) => {
                &&& stage.index() < outcomes.len()
                &&& !outcomes[stage.index() as int]
                &&& forall|i: int| 0 <= i < stage.index() ==> outcomes[i]
            },
        },
    decreases outcomes.len(),
{
    if outcomes.len() > 0 {
        let front = outcomes.drop_last();
        progress_tells_the_outcomes(front);
        assert(forall|i: int| 0 <= i < front.len() ==> front[i] == outcomes[i]);
        assert(outcomes.last() == outcomes[outcomes.len() - 1]);
    }
}

/// The startup sequence is ready exactly when it has been told that each of
/// the six stages succeeded.
pub proof fn ready_only_if_every_stage_succeeds(outcomes: Seq<bool>)
    ensures
        progress_after(outcomes) == Progress::Ready <==> {
            &&& outcomes.len() >= Stage::count()
            &&& forall|i: int| 0 <= i < Stage::count() ==> outcomes[i]
        },
{
    progress_tells_the_outcomes(outcomes);
}

/// The first stage that fails aborts the startup sequence, and whatever the
/// sequence is told afterwards, it stays aborted at that stage.
pub proof fn first_failure_aborts(outcomes: Seq<bool>, failed: Stage)
    requires
        failed.index() < outcomes.len(),
        !outcomes[failed.index() as int],
        forall|i: int| 0 <= i < failed.index() ==> outcomes[i],
    ensures
        progress_after(outcomes) == Progress::Aborted(failed),
{
    progress_tells_the_outcomes(outcomes);
    match progress_after(outcomes) {
        Progress::Aborted(stage) => {
            if stage.index() < failed.index() {
                assert(outcomes[stage.index() as int]);
            } else if failed.index() < stage.index() {
                assert(outcomes[failed.index() as int]);
            }
        },
        Progress::Pending(stage) => {
            assert(outcomes[failed.index() as int]);
        },
        Progress::Ready => {
            assert(outcomes[failed.index() as int]);
        },
    }
}

/// If the animation asset cannot be parsed, the startup sequence is aborted
/// at that stage and never becomes ready: there will be no application, and
/// so nothing that could react to an event of the window.
pub proof fn invalid_asset_aborts_startup(outcomes: Seq<bool>)
    requires
        outcomes.len() > Stage::Asset.index(),
        forall|i: int| 0 <= i < Stage::Asset.index() ==> outcomes[i],
        !outcomes[Stage::Asset.index() as int],
    ensures
        progress_after(outcomes) == Progress::Aborted(Stage::Asset),
        progress_after(outcomes) != Progress::Ready,
{
    first_failure_aborts(outcomes, Stage::Asset);
}

} // verus!
