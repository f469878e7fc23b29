use render_core::driver::{
    run_tick, FrameDriver, Phase, Startup, StartupAction, StartupEvent, Step,
};
use render_core::gpu_state::{FrameCtx, GpuState};
use std::cell::RefCell;

fn tick(driver: &mut FrameDriver, ready: bool) -> Vec<Step> {
    let mut steps = Vec::new();
    loop {
        let step = driver.step(ready);
        steps.push(step);
        if step == Step::Schedule {
            return steps;
        }
    }
}

#[test]
fn new_driver_is_idle() {
    let driver = FrameDriver::new(3);
    assert_eq!(driver.passes, 3);
    assert_eq!(driver.phase, Phase::Idle);
}

#[test]
fn tick_runs_passes_in_registration_order() {
    let mut driver = FrameDriver::new(4);
    let steps = tick(&mut driver, true);
    assert_eq!(
        steps,
        vec![
            Step::Update,
            Step::Reload,
            Step::Begin,
            Step::Pass(0),
            Step::Pass(1),
            Step::Pass(2),
            Step::Pass(3),
            Step::End,
            Step::Schedule,
        ]
    );
    assert_eq!(driver.phase, Phase::Idle);
    assert_eq!(tick(&mut driver, true), steps);
}

#[test]
fn tick_without_passes_still_begins_and_ends() {
    let mut driver = FrameDriver::new(0);
    assert_eq!(
        tick(&mut driver, true),
        vec![Step::Update, Step::Reload, Step::Begin, Step::End, Step::Schedule]
    );
}

#[test]
fn tick_before_the_renderer_is_ready_only_updates() {
    let mut driver = FrameDriver::new(2);
    assert_eq!(tick(&mut driver, false), vec![Step::Update, Step::Schedule]);
    assert_eq!(driver.phase, Phase::Idle);
    assert_eq!(tick(&mut driver, true).len(), 7);
}

#[test]
fn phases_of_a_tick() {
    let mut driver = FrameDriver::new(1);
    assert_eq!(driver.step(true), Step::Update);
    assert_eq!(driver.phase, Phase::Updated);
    assert_eq!(driver.step(true), Step::Reload);
    assert_eq!(driver.phase, Phase::Reloaded);
    assert_eq!(driver.step(true), Step::Begin);
    assert_eq!(driver.phase, Phase::Drawing { next: 0 });
    assert_eq!(driver.step(true), Step::Pass(0));
    assert_eq!(driver.phase, Phase::Drawing { next: 1 });
    assert_eq!(driver.step(true), Step::End);
    assert_eq!(driver.phase, Phase::Ended);
    assert_eq!(driver.step(true), Step::Schedule);
    assert_eq!(driver.phase, Phase::Idle);
}

#[test]
fn a_begun_frame_is_finished_even_if_readiness_is_lost() {
    let mut driver = FrameDriver::new(1);
    assert_eq!(driver.step(false), Step::Update);
    assert_eq!(driver.step(true), Step::Reload);
    assert_eq!(driver.step(false), Step::Begin);
    assert_eq!(driver.step(false), Step::Pass(0));
    assert_eq!(driver.step(false), Step::End);
    assert_eq!(driver.step(false), Step::Schedule);
}

#[test]
fn startup_reaches_the_render_loop() {
    let mut start = Startup::new();
    assert_eq!(start, Startup::AwaitCanvas);
    assert_eq!(start.on_event(StartupEvent::Canvas { found: true }), StartupAction::InitGpu);
    assert_eq!(start, Startup::AwaitGpu);
    assert_eq!(start.on_event(StartupEvent::Gpu { ok: true }), StartupAction::StartLoop);
    assert_eq!(start, Startup::Running);
}

#[test]
fn startup_without_canvas_stops() {
    let mut start = Startup::new();
    assert_eq!(
        start.on_event(StartupEvent::Canvas { found: false }),
        StartupAction::ReportMissingCanvas
    );
    assert_eq!(start, Startup::Stopped);
    assert_eq!(start.on_event(StartupEvent::Gpu { ok: true }), StartupAction::Ignore);
    assert_eq!(start, Startup::Stopped);
}

#[test]
fn startup_without_graphics_capability_shows_the_fallback() {
    let mut start = Startup::new();
    start.on_event(StartupEvent::Canvas { found: true });
    assert_eq!(start.on_event(StartupEvent::Gpu { ok: false }), StartupAction::ShowFallback);
    assert_eq!(start, Startup::Stopped);
}

#[test]
fn startup_ignores_events_out_of_turn() {
    let mut start = Startup::new();
    assert_eq!(start.on_event(StartupEvent::Gpu { ok: true }), StartupAction::Ignore);
    assert_eq!(start, Startup::AwaitCanvas);
    start.on_event(StartupEvent::Canvas { found: true });
    assert_eq!(start.on_event(StartupEvent::Canvas { found: true }), StartupAction::Ignore);
    assert_eq!(start, Startup::AwaitGpu);
    start.on_event(StartupEvent::Gpu { ok: true });
    assert_eq!(start.on_event(StartupEvent::Gpu { ok: false }), StartupAction::Ignore);
    assert_eq!(start, Startup::Running);
}

fn logged_tick(
    driver: &mut FrameDriver,
    state: Option<&mut GpuState<&'static str>>,
    camera: Option<&u8>,
) -> (Vec<Step>, Vec<String>) {
    let log: RefCell<Vec<String>> = RefCell::new(Vec::new());
    let trace = run_tick(
        driver,
        state,
        camera,
        || log.borrow_mut().push("update".to_string()),
        || log.borrow_mut().push("reload".to_string()),
        |gpu: &&'static str| {
            log.borrow_mut().push(format!("acquire {gpu}"));
            Vec::<usize>::new()
        },
        |i: usize, st: &mut GpuState<&'static str>, cam: &u8, ctx: &mut FrameCtx<Vec<usize>>| {
            assert!(st.in_frame());
            let payload = st.populate_common_buffers(16 * (i as u64 + 1));
            ctx.recorder_mut().push(i);
            log.borrow_mut().push(format!("pass {i} camera {cam} frame {}", payload.frame_id));
        },
        |gpu: &&'static str, recorded: Vec<usize>| {
            log.borrow_mut().push(format!("submit {gpu} {recorded:?}"));
        },
        || log.borrow_mut().push("schedule".to_string()),
    );
    (trace, log.into_inner())
}

#[test]
fn run_tick_draws_every_pass_between_begin_and_end() {
    let mut driver = FrameDriver::new(3);
    let mut state = GpuState::new("gpu", 0);
    let (trace, log) = logged_tick(&mut driver, Some(&mut state), Some(&9));
    assert_eq!(
        trace,
        vec![
            Step::Update,
            Step::Reload,
            Step::Begin,
            Step::Pass(0),
            Step::Pass(1),
            Step::Pass(2),
            Step::End,
            Step::Schedule,
        ]
    );
    assert_eq!(
        log,
        vec![
            "update",
            "reload",
            "acquire gpu",
            "pass 0 camera 9 frame 0",
            "pass 1 camera 9 frame 1",
            "pass 2 camera 9 frame 2",
            "submit gpu [0, 1, 2]",
            "schedule",
        ]
    );
    assert_eq!(driver.phase, Phase::Idle);
    assert!(!state.in_frame());
    assert_eq!(state.frame_counter(), 3);
    let (again, _) = logged_tick(&mut driver, Some(&mut state), Some(&9));
    assert_eq!(again, trace);
    assert!(!state.in_frame());
}

#[test]
fn run_tick_without_renderer_only_updates() {
    let mut driver = FrameDriver::new(3);
    let (trace, log) = logged_tick(&mut driver, None, Some(&9));
    assert_eq!(trace, vec![Step::Update, Step::Schedule]);
    assert_eq!(log, vec!["update", "schedule"]);
    assert_eq!(driver.phase, Phase::Idle);
}

#[test]
fn run_tick_without_camera_only_updates() {
    let mut driver = FrameDriver::new(3);
    let mut state = GpuState::new("gpu", 0);
    let (trace, log) = logged_tick(&mut driver, Some(&mut state), None);
    assert_eq!(trace, vec![Step::Update, Step::Schedule]);
    assert_eq!(log, vec!["update", "schedule"]);
    assert!(!state.in_frame());
    assert_eq!(state.frame_counter(), 0);
}

#[test]
fn run_tick_without_passes_presents_an_empty_frame() {
    let mut driver = FrameDriver::new(0);
    let mut state = GpuState::new("gpu", 0);
    let (trace, log) = logged_tick(&mut driver, Some(&mut state), Some(&1));
    assert_eq!(
        trace,
        vec![Step::Update, Step::Reload, Step::Begin, Step::End, Step::Schedule]
    );
    assert_eq!(log, vec!["update", "reload", "acquire gpu", "submit gpu []", "schedule"]);
}
