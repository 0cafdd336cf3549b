use rive_demo::geometry::{SurfaceSize, Viewport};
use rive_demo::startup::{window_title, Progress, Stage, Startup, WINDOW_HEIGHT, WINDOW_WIDTH};

const STAGES: [Stage; 6] = [
    Stage::Window,
    Stage::GpuContext,
    Stage::Surface,
    Stage::Renderer,
    Stage::Asset,
    Stage::Scene,
];

/// A startup in which the first `succeeded` stages have succeeded.
fn advanced_by(succeeded: usize) -> Startup {
    let mut startup = Startup::begin();
    for _ in 0..succeeded {
        startup.report(true);
    }
    startup
}

#[test]
fn window_is_titled_and_sized() {
    assert_eq!(window_title(), "Rive demo");
    assert_eq!(WINDOW_WIDTH, 500);
    assert_eq!(WINDOW_HEIGHT, 500);
}

#[test]
fn startup_begins_with_the_window() {
    let startup = Startup::begin();
    assert_eq!(startup.progress(), Progress::Pending(Stage::Window));
}

#[test]
fn stages_follow_in_order() {
    let mut startup = Startup::begin();
    for (position, stage) in STAGES.iter().enumerate() {
        assert_eq!(startup.progress(), Progress::Pending(*stage));
        let progress = startup.report(true);
        if position + 1 < STAGES.len() {
            assert_eq!(progress, Progress::Pending(STAGES[position + 1]));
        } else {
            assert_eq!(progress, Progress::Ready);
        }
        assert_eq!(startup.progress(), progress);
    }
}

#[test]
fn next_stage_of_each_stage() {
    assert_eq!(Stage::Window.next(), Some(Stage::GpuContext));
    assert_eq!(Stage::GpuContext.next(), Some(Stage::Surface));
    assert_eq!(Stage::Surface.next(), Some(Stage::Renderer));
    assert_eq!(Stage::Renderer.next(), Some(Stage::Asset));
    assert_eq!(Stage::Asset.next(), Some(Stage::Scene));
    assert_eq!(Stage::Scene.next(), None);
}

#[test]
fn failure_of_any_stage_aborts_there() {
    for (position, stage) in STAGES.iter().enumerate() {
        let mut startup = advanced_by(position);
        assert_eq!(startup.report(false), Progress::Aborted(*stage));
        assert_eq!(startup.progress(), Progress::Aborted(*stage));
        assert!(startup.launch(SurfaceSize { width: 500, height: 500 }).is_none());
    }
}

#[test]
fn window_failure_aborts() {
    let mut startup = Startup::begin();
    assert_eq!(startup.report(false), Progress::Aborted(Stage::Window));
}

#[test]
fn gpu_context_failure_aborts() {
    let mut startup = advanced_by(1);
    assert_eq!(startup.report(false), Progress::Aborted(Stage::GpuContext));
}

#[test]
fn surface_failure_aborts() {
    let mut startup = advanced_by(2);
    assert_eq!(startup.report(false), Progress::Aborted(Stage::Surface));
}

#[test]
fn renderer_failure_aborts() {
    let mut startup = advanced_by(3);
    assert_eq!(startup.report(false), Progress::Aborted(Stage::Renderer));
}

#[test]
fn scene_failure_aborts() {
    let mut startup = advanced_by(5);
    assert_eq!(startup.report(false), Progress::Aborted(Stage::Scene));
}

#[test]
fn invalid_asset_aborts_before_there_is_an_application() {
    let mut startup = Startup::begin();
    assert_eq!(startup.report(true), Progress::Pending(Stage::GpuContext));
    assert_eq!(startup.report(true), Progress::Pending(Stage::Surface));
    assert_eq!(startup.report(true), Progress::Pending(Stage::Renderer));
    assert_eq!(startup.report(true), Progress::Pending(Stage::Asset));
    assert_eq!(startup.report(false), Progress::Aborted(Stage::Asset));
    assert_eq!(startup.report(true), Progress::Aborted(Stage::Asset));
    assert!(startup.launch(SurfaceSize { width: 500, height: 500 }).is_none());
}

#[test]
fn aborted_startup_stays_aborted() {
    let mut startup = advanced_by(2);
    startup.report(false);
    for outcome in [true, false, true, true, true, true, true] {
        assert_eq!(startup.report(outcome), Progress::Aborted(Stage::Surface));
    }
    assert!(startup.launch(SurfaceSize { width: 1, height: 1 }).is_none());
}

#[test]
fn ready_startup_stays_ready() {
    let mut startup = advanced_by(6);
    assert_eq!(startup.progress(), Progress::Ready);
    assert_eq!(startup.report(false), Progress::Ready);
    assert_eq!(startup.report(true), Progress::Ready);
    assert!(startup.launch(SurfaceSize { width: 1, height: 1 }).is_some());
}

#[test]
fn no_application_before_startup_is_complete() {
    for succeeded in 0..6 {
        let startup = advanced_by(succeeded);
        assert!(startup.launch(SurfaceSize { width: 500, height: 500 }).is_none());
    }
}

#[test]
fn complete_startup_launches_the_application() {
    let startup = advanced_by(6);
    let app = startup.launch(SurfaceSize { width: 1000, height: 750 }).unwrap();
    assert!(app.is_running());
    assert_eq!(app.surface(), SurfaceSize { width: 1000, height: 750 });
    assert_eq!(app.viewport(), Viewport { width: 0, height: 0 });
}
