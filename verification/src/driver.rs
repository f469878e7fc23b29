//! The frame driver: how a demo starts, and what is done, and in which
//! order, on every animation tick.

use vstd::prelude::*;
use crate::gpu_state::{FrameCtx, GpuState};

verus! {

/// One thing that the driver asks its host to do.
#[derive(Copy, Clone, PartialEq, Eq, Structural, Debug)]
pub enum Step {
    /// Run the update hook (physics, inverse kinematics).
    Update,
    /// Hand pending shader source to the compiler, and apply the verdicts
    /// that have arrived.
    Reload,
    /// Begin the frame and keep its token.
    Begin,
    /// Invoke the pass that was registered at this position.
    Pass(usize),
    /// End the frame with its token.
    End,
    /// Ask for the next animation tick.
    Schedule,
}

/// Where the driver stands within a tick.
#[derive(Copy, Clone, PartialEq, Eq, Structural, Debug)]
pub enum Phase {
    /// Between ticks.
    Idle,
    /// The update hook has run.
    Updated,
    /// Shader reloads are applied; no pipeline changes until the frame ends.
    Reloaded,
    /// The frame is begun; the pass at `next` is the next to run.
    Drawing { next: usize },
    /// The frame is ended.
    Ended,
}

/// The driver of a fixed list of render passes.
#[derive(Copy, Clone, PartialEq, Eq, Structural, Debug)]
pub struct FrameDriver {
    /// How many passes are registered.
    pub passes: usize,
    /// Where the driver stands.
    pub phase: Phase,
}

/// The step that is due in `phase`, where `ready` says whether the renderer
/// and the camera are available, and the phase that follows it.
pub open spec fn transition(phase: Phase, passes: usize, ready: bool) -> (Phase, Step) {
    match phase {
        Phase::Idle => (Phase::Updated, Step::Update),
        Phase::Updated => if ready {
            (Phase::Reloaded, Step::Reload)
        } else {
            (Phase::Idle, Step::Schedule)
        },
        Phase::Reloaded => (Phase::Drawing { next: 0 }, Step::Begin),
        Phase::Drawing { next } => if next < passes {
            (Phase::Drawing { next: (next + 1) as usize }, Step::Pass(next))
        } else {
            (Phase::Ended, Step::End)
        },
        Phase::Ended => (Phase::Idle, Step::Schedule),
    }
}

/// The phase after `count` steps from `phase`.
pub open spec fn phase_after(phase: Phase, passes: usize, ready: bool, count: nat) -> Phase
    decreases count,
{
    if count == 0 {
        phase
    } else {
        transition(phase_after(phase, passes, ready, (count - 1) as nat), passes, ready).0
    }
}

/// The first `count` steps from `phase`.
pub open spec fn steps_from(phase: Phase, passes: usize, ready: bool, count: nat) -> Seq<Step>
    decreases count,
{
    if count == 0 {
        Seq::empty()
    } else {
        steps_from(phase, passes, ready, (count - 1) as nat).push(
            transition(phase_after(phase, passes, ready, (count - 1) as nat), passes, ready).1,
        )
    }
}

/// The steps of one tick that draws: the update hook, the shader reload,
/// the begin of the frame, every pass in the order of registration, the end
/// of the frame, and the request for the next tick.
pub open spec fn drawing_tick(passes: usize) -> Seq<Step> {
    seq![Step::Update, Step::Reload, Step::Begin] + Seq::new(
        passes as nat,
        |i: int| Step::Pass(i as usize),
    ) + seq![Step::End, Step::Schedule]
}

/// The steps of one tick while the renderer is not available: the update
/// hook and the request for the next tick.
pub open spec fn waiting_tick() -> Seq<Step> {
    seq![Step::Update, Step::Schedule]
}

impl FrameDriver {
    /// A driver of `passes` passes, between ticks.
    pub fn new(passes: usize) -> (driver: Self)
        ensures
            driver.passes == passes,
            driver.phase == Phase::Idle,
    {
        FrameDriver { passes, phase: Phase::Idle }
    }

    /// The step that is due, after which the driver moves on. `ready` says
    /// whether the renderer and the camera are available; it is read after
    /// the update hook only.
    pub fn step(&mut self, ready: bool) -> (step: Step)
        ensures
            (final(self).phase, step) == transition(old(self).phase, old(self).passes, ready),
            final(self).passes == old(self).passes,
    {
        match self.phase {
            Phase::Idle => {
                self.phase = Phase::Updated;
                Step::Update
            },
            Phase::Updated => {
                if ready {
                    self.phase = Phase::Reloaded;
                    Step::Reload
                } else {
                    self.phase = Phase::Idle;
                    Step::Schedule
                }
            },
            Phase::Reloaded => {
                self.phase = Phase::Drawing { next: 0 };
                Step::Begin
            },
            Phase::Drawing { next } => {
                if next < self.passes {
                    self.phase = Phase::Drawing { next: next + 1 };
                    Step::Pass(next)
                } else {
                    self.phase = Phase::Ended;
                    Step::End
                }
            },
            Phase::Ended => {
                self.phase = Phase::Idle;
                Step::Schedule
            },
        }
    }
}

/// While a frame is drawn, the driver runs the passes one by one: after the
/// update, the reload, the begin and `done` passes it stands before pass
/// `done`.
proof fn lemma_drawing_prefix(passes: usize, done: nat)
    requires
        done <= passes,
    ensures
        phase_after(Phase::Idle, passes, true, done + 3) == (Phase::Drawing {
            next: done as usize,
        }),
        steps_from(Phase::Idle, passes, true, done + 3) == seq![
            Step::Update,
            Step::Reload,
            Step::Begin,
        ] + Seq::new(done, |i: int| Step::Pass(i as usize)),
    decreases done,
{
    reveal_with_fuel(phase_after, 4);
    reveal_with_fuel(steps_from, 4);
    if done == 0 {
    } else {
        lemma_drawing_prefix(passes, (done - 1) as nat);
    }
}

/// Pass order: a tick that draws takes `passes + 5` steps, which are the
/// update hook, the shader reload, the begin of the frame, every registered
/// pass exactly once in the order of registration, the end of the frame and
/// the request for the next tick; the driver is then between ticks again.
pub proof fn lemma_drawing_tick(passes: usize)
    ensures
        steps_from(Phase::Idle, passes, true, passes as nat + 5) == drawing_tick(passes),
        phase_after(Phase::Idle, passes, true, passes as nat + 5) == Phase::Idle,
{
    lemma_drawing_prefix(passes, passes as nat);
    reveal_with_fuel(phase_after, 3);
    reveal_with_fuel(steps_from, 3);
}

/// No pipeline is swapped mid-draw: in a tick that draws, the only shader
/// reload comes before the frame is begun, and the passes lie between the
/// begin and the end of the frame.
pub proof fn lemma_reload_outside_frame(passes: usize, i: int)
    requires
        0 <= i < drawing_tick(passes).len(),
    ensures
        drawing_tick(passes).len() == passes + 5,
        drawing_tick(passes)[2] == Step::Begin,
        drawing_tick(passes)[passes + 3] == Step::End,
        drawing_tick(passes)[i] == Step::Reload <==> i == 1,
        drawing_tick(passes)[i] is Pass <==> 2 < i < passes + 3,
        2 < i < passes + 3 ==> drawing_tick(passes)[i] == Step::Pass((i - 3) as usize),
{
}

/// A tick while the renderer is not available runs the update hook and
/// asks for the next tick, and draws nothing.
pub proof fn lemma_waiting_tick(passes: usize)
    ensures
        steps_from(Phase::Idle, passes, false, 2) == waiting_tick(),
        phase_after(Phase::Idle, passes, false, 2) == Phase::Idle,
{
    reveal_with_fuel(phase_after, 3);
    reveal_with_fuel(steps_from, 3);
}

/// Whether `i` is the position of one of `passes` registered passes.
pub open spec fn is_pass(i: int, passes: int) -> bool {
    0 <= i < passes
}

/// Whether `begun` and `token` are the renderer and the token right after a
/// frame was begun with `acquire` on the renderer `idle`: the token is owed
/// and carries what `acquire` made, and the clock and the resources are
/// those of `idle`.
pub open spec fn frame_begun<G, T, A: FnOnce(&G) -> T>(
    idle: GpuState<G>,
    acquire: A,
    begun: GpuState<G>,
    token: FrameCtx<T>,
) -> bool {
    &&& begun.owes(token)
    &&& acquire.ensures((&idle.gpu_of(),), token.recorder_of())
    &&& begun.gpu_of() == idle.gpu_of()
    &&& begun.start_ms_of() == idle.start_ms_of()
    &&& begun.prev_ms_of() == idle.prev_ms_of()
    &&& begun.frame_counter_of() == idle.frame_counter_of()
}

/// Whether `idle` is the renderer right after the frame of `drawn` and
/// `token` was ended with `submit`: `submit` was handed what the token
/// carried, no frame is under way, and the clock and the resources are those
/// of `drawn`.
pub open spec fn frame_ended<G, T, S: FnOnce(&G, T)>(
    drawn: GpuState<G>,
    token: FrameCtx<T>,
    submit: S,
    idle: GpuState<G>,
) -> bool {
    &&& submit.ensures((&drawn.gpu_of(), token.recorder_of()), ())
    &&& !idle.in_frame_of()
    &&& idle.gpu_of() == drawn.gpu_of()
    &&& idle.start_ms_of() == drawn.start_ms_of()
    &&& idle.prev_ms_of() == drawn.prev_ms_of()
    &&& idle.frame_counter_of() == drawn.frame_counter_of()
}

/// Runs one animation tick and returns the steps it took, in order. The
/// update hook runs first. If the renderer `state` and the `camera` are
/// available, shader reloads are applied, the frame is begun with `acquire`,
/// `pass` is invoked for every registered pass in the order of registration
/// with the one token of the frame, each on what the pass before it left,
/// and the frame is ended with `submit` on what the last pass left. Without
/// a renderer or a camera nothing is drawn and the renderer stays as it is.
/// In either case `schedule` asks for the next tick at the end.
///
/// A pass may record into the token and populate the common buffers; it
/// must leave the frame under way.
pub fn run_tick<G, C, T, U, L, A, P, S, N>(
    driver: &mut FrameDriver,
    state: Option<&mut GpuState<G>>,
    camera: Option<&C>,
    update: U,
    reload: L,
    acquire: A,
    pass: P,
    submit: S,
    schedule: N,
) -> (trace: Vec<Step>) where
    U: FnOnce(),
    L: FnOnce(),
    A: FnOnce(&G) -> T,
    P: Fn(usize, &mut GpuState<G>, &C, &mut FrameCtx<T>),
    S: FnOnce(&G, T),
    N: FnOnce(),

    requires
        old(driver).phase == Phase::Idle,
        state is Some ==> !state->Some_0.in_frame_of(),
        update.requires(()),
        reload.requires(()),
        schedule.requires(()),
        forall|g: G| acquire.requires((&g,)),
        forall|g: G, t: T| submit.requires((&g, t)),
        forall|i: usize, st: &mut GpuState<G>, cam: &C, ctx: &mut FrameCtx<T>|
            i < old(driver).passes && st.owes(*ctx) ==> pass.requires((i, st, cam, ctx)),
        forall|i: usize, st: &mut GpuState<G>, cam: &C, ctx: &mut FrameCtx<T>|
            st.owes(*ctx) && pass.ensures((i, st, cam, ctx), ()) ==> final(st).owes(*final(ctx)),
    ensures
        final(driver).phase == Phase::Idle,
        final(driver).passes == old(driver).passes,
        state is Some && camera is Some ==> trace@ == drawing_tick(old(driver).passes),
        state is None || camera is None ==> trace@ == waiting_tick(),
        update.ensures((), ()),
        schedule.ensures((), ()),
        state is Some && camera is Some ==> reload.ensures((), ()),
        state is Some && camera is Some ==> exists|frames: Seq<(GpuState<G>, FrameCtx<T>)>|
            #![trigger frames.len()]
            frames.len() == old(driver).passes + 1 && frame_begun(
                *state->Some_0,
                acquire,
                frames[0].0,
                frames[0].1,
            ) && (forall|i: int| #[trigger]
                is_pass(i, old(driver).passes as int) ==> exists|
                    st: &mut GpuState<G>,
                    ctx: &mut FrameCtx<T>,
                |
                    #[trigger] pass.ensures((i as usize, st, camera->Some_0, ctx), ()) && *st
                        == frames[i].0 && *final(st) == frames[i + 1].0 && *ctx == frames[i].1
                        && *final(ctx) == frames[i + 1].1) && frame_ended(
                frames[old(driver).passes as int].0,
                frames[old(driver).passes as int].1,
                submit,
                *final(state->Some_0),
            ),
        state is Some && camera is None ==> *final(state->Some_0) == *state->Some_0,
{
    let mut trace: Vec<Step> = Vec::new();
    match (state, camera) {
        (Some(st), Some(cam)) => {
            let ghost idle = *st;
            trace.push(driver.step(true));
            update();
            trace.push(driver.step(true));
            reload();
            trace.push(driver.step(true));
            let mut token = st.begin_frame(acquire);
            let ghost mut frames: Seq<(GpuState<G>, FrameCtx<T>)> = seq![(*st, token)];
            let n = driver.passes;
            let mut i: usize = 0;
            while i < n
                invariant
                    0 <= i <= n,
                    n == driver.passes,
                    driver.phase == (Phase::Drawing { next: i }),
                    st.owes(token),
                    frames.len() == i + 1,
                    frame_begun(idle, acquire, frames[0].0, frames[0].1),
                    frames[i as int] == (*st, token),
                    forall|k: int| #[trigger]
                        is_pass(k, i as int) ==> exists|
                            r: &mut GpuState<G>,
                            ctx: &mut FrameCtx<T>,
                        |
                            #[trigger] pass.ensures((k as usize, r, cam, ctx), ()) && *r
                                == frames[k].0 && *final(r) == frames[k + 1].0 && *ctx
                                == frames[k].1 && *final(ctx) == frames[k + 1].1,
                    trace@ == seq![Step::Update, Step::Reload, Step::Begin] + Seq::new(
                        i as nat,
                        |k: int| Step::Pass(k as usize),
                    ),
                    forall|i: usize, st: &mut GpuState<G>, cam: &C, ctx: &mut FrameCtx<T>|
                        i < n && st.owes(*ctx) ==> pass.requires((i, st, cam, ctx)),
                    forall|i: usize, st: &mut GpuState<G>, cam: &C, ctx: &mut FrameCtx<T>|
                        st.owes(*ctx) && pass.ensures((i, st, cam, ctx), ()) ==> final(st).owes(
                            *final(ctx),
                        ),
                decreases n - i,
            {
                trace.push(driver.step(true));
                pass(i, st, cam, &mut token);
                proof {
                    frames = frames.push((*st, token));
                    assert forall|k: int| #[trigger] is_pass(k, i + 1) implies exists|
                        r: &mut GpuState<G>,
                        ctx: &mut FrameCtx<T>,
                    |
                        #[trigger] pass.ensures((k as usize, r, cam, ctx), ()) && *r
                            == frames[k].0 && *final(r) == frames[k + 1].0 && *ctx == frames[k].1
                            && *final(ctx) == frames[k + 1].1 by {
                        if k < i {
                            assert(is_pass(k, i as int));
                        }
                    }
                }
                i += 1;
            }
            trace.push(driver.step(true));
            st.end_frame(token, submit);
            trace.push(driver.step(true));
            schedule();
        },
        _ => {
            trace.push(driver.step(false));
            update();
            trace.push(driver.step(false));
            schedule();
        },
    }
    trace
}

/// How far the start of a demo has come.
#[derive(Copy, Clone, PartialEq, Eq, Structural, Debug)]
pub enum Startup {
    /// The canvas is looked up.
    AwaitCanvas,
    /// The graphics device is requested.
    AwaitGpu,
    /// The render loop runs.
    Running,
    /// The start was given up; nothing is drawn.
    Stopped,
}

/// What the host reports while a demo starts.
#[derive(Copy, Clone, PartialEq, Eq, Structural, Debug)]
pub enum StartupEvent {
    /// The lookup of the canvas ended.
    Canvas { found: bool },
    /// The request for the graphics device ended.
    Gpu { ok: bool },
}

/// What the host does next while a demo starts.
#[derive(Copy, Clone, PartialEq, Eq, Structural, Debug)]
pub enum StartupAction {
    /// Report that there is no canvas.
    ReportMissingCanvas,
    /// Run the hook for the ready canvas and request the graphics device.
    InitGpu,
    /// Clear the capability flag, so that the fallback message is shown, and
    /// report the error.
    ShowFallback,
    /// Keep the renderer and a default camera, add the input handlers and
    /// start the render loop.
    StartLoop,
    /// Nothing: the event does not belong to this point of the start.
    Ignore,
}

/// The point of the start after `event`, and what the host does.
pub open spec fn startup_transition(state: Startup, event: StartupEvent) -> (
    Startup,
    StartupAction,
) {
    match (state, event) {
        (Startup::AwaitCanvas, StartupEvent::Canvas { found }) => if found {
            (Startup::AwaitGpu, StartupAction::InitGpu)
        } else {
            (Startup::Stopped, StartupAction::ReportMissingCanvas)
        },
        (Startup::AwaitGpu, StartupEvent::Gpu { ok }) => if ok {
            (Startup::Running, StartupAction::StartLoop)
        } else {
            (Startup::Stopped, StartupAction::ShowFallback)
        },
        _ => (state, StartupAction::Ignore),
    }
}

impl Startup {
    /// The start of a demo before anything has happened.
    pub fn new() -> (state: Self)
        ensures
            state == Startup::AwaitCanvas,
    {
        Startup::AwaitCanvas
    }

    /// Takes in what the host reports and says what it does next. A missing
    /// graphics capability stops the start and shows the fallback; it never
    /// fails otherwise.
    pub fn on_event(&mut self, event: StartupEvent) -> (action: StartupAction)
        ensures
            (*final(self), action) == startup_transition(*old(self), event),
    {
        match (*self, event) {
            (Startup::AwaitCanvas, StartupEvent::Canvas { found }) => {
                if found {
                    *self = Startup::AwaitGpu;
                    StartupAction::InitGpu
                } else {
                    *self = Startup::Stopped;
                    StartupAction::ReportMissingCanvas
                }
            },
            (Startup::AwaitGpu, StartupEvent::Gpu { ok }) => {
                if ok {
                    *self = Startup::Running;
                    StartupAction::StartLoop
                } else {
                    *self = Startup::Stopped;
                    StartupAction::ShowFallback
                }
            },
            _ => StartupAction::Ignore,
        }
    }
}

} // verus!
