//! The state of one render pass: a pipeline that is compiled on first use
//! and after every invalidation, and buffers that are created on first use.

use vstd::prelude::*;

verus! {

/// What a render pass keeps between frames: its compiled pipeline `P`, the
/// buffers `S` that never change, and the growable buffers `D` that are
/// refilled every frame. Each is absent until the pass first runs.
pub struct RenderPass<P, S, D> {
    /// The compiled pipeline; absent until first use and after invalidation.
    pub pipeline: Option<P>,
    /// Vertex and index buffers that are created once.
    pub statics: Option<S>,
    /// The growable buffer manager of the pass.
    pub dynamic: Option<D>,
}

/// What can happen to a render pass between and during frames.
pub enum PassEvent {
    /// The frame driver invokes the pass; a disabled pass returns at once.
    Invoke { enabled: bool },
    /// The shader source changed.
    Invalidate,
}

/// Whether the pipeline is present after `event`, given whether it was
/// present before.
pub open spec fn built_after(built: bool, event: PassEvent) -> bool {
    match event {
        PassEvent::Invoke { enabled } => built || enabled,
        PassEvent::Invalidate => false,
    }
}

/// Whether `event` compiles the pipeline, given whether it was present
/// before.
pub open spec fn compiles(built: bool, event: PassEvent) -> bool {
    match event {
        PassEvent::Invoke { enabled } => enabled && !built,
        PassEvent::Invalidate => false,
    }
}

/// Whether the pipeline is present after the events of `trace` in turn.
pub open spec fn built_after_trace(built: bool, trace: Seq<PassEvent>) -> bool
    decreases trace.len(),
{
    if trace.len() == 0 {
        built
    } else {
        built_after(built_after_trace(built, trace.drop_last()), trace.last())
    }
}

/// How many events of `trace` compile the pipeline.
pub open spec fn compilations(built: bool, trace: Seq<PassEvent>) -> nat
    decreases trace.len(),
{
    if trace.len() == 0 {
        0
    } else {
        compilations(built, trace.drop_last()) + if compiles(
            built_after_trace(built, trace.drop_last()),
            trace.last(),
        ) {
            1nat
        } else {
            0nat
        }
    }
}

/// How many events of `trace` are invalidations.
pub open spec fn invalidations(trace: Seq<PassEvent>) -> nat
    decreases trace.len(),
{
    if trace.len() == 0 {
        0
    } else {
        invalidations(trace.drop_last()) + if trace.last() is Invalidate {
            1nat
        } else {
            0nat
        }
    }
}

/// The pipeline is compiled at most once between invalidations: over any
/// trace, the compilations number at most the invalidations, and one more
/// where the pass started without a pipeline. While a pipeline is present at
/// the end, one compilation fewer than that bound has been spent on earlier
/// pipelines.
pub proof fn lemma_compiled_once_between_invalidations(built: bool, trace: Seq<PassEvent>)
    ensures
        compilations(built, trace) + (if built_after_trace(built, trace) {
            0nat
        } else {
            1nat
        }) <= invalidations(trace) + (if built {
            0nat
        } else {
            1nat
        }),
    decreases trace.len(),
{
    if trace.len() > 0 {
        lemma_compiled_once_between_invalidations(built, trace.drop_last());
    }
}

/// An invalidation forces a compilation on the next enabled invocation,
/// whatever came before.
pub proof fn lemma_invalidation_forces_rebuild(built: bool, trace: Seq<PassEvent>)
    ensures
        compilations(
            built,
            trace.push(PassEvent::Invalidate).push(PassEvent::Invoke { enabled: true }),
        ) == compilations(built, trace) + 1,
        built_after_trace(
            built,
            trace.push(PassEvent::Invalidate).push(PassEvent::Invoke { enabled: true }),
        ),
{
    let t1 = trace.push(PassEvent::Invalidate);
    let t2 = t1.push(PassEvent::Invoke { enabled: true });
    assert(t2.drop_last() =~= t1);
    assert(t1.drop_last() =~= trace);
    assert(compilations(built, t1) == compilations(built, trace));
}

impl<P, S, D> RenderPass<P, S, D> {
    /// Whether `slot` holds what `make` may return where `old_slot` was
    /// empty and the pass ran, and is `old_slot` otherwise.
    pub open spec fn filled<T, F: FnOnce() -> T>(
        old_slot: Option<T>,
        enabled: bool,
        make: F,
        slot: Option<T>,
    ) -> bool {
        if enabled && old_slot is None {
            slot is Some && make.ensures((), slot->Some_0)
        } else {
            slot == old_slot
        }
    }

    /// A pass that has not run yet.
    pub fn new() -> (pass: Self)
        ensures
            pass.pipeline is None,
            pass.statics is None,
            pass.dynamic is None,
    {
        RenderPass { pipeline: None, statics: None, dynamic: None }
    }

    /// The first step of an invocation. A disabled pass is left as it is and
    /// must not draw. An enabled pass compiles its pipeline if it is absent,
    /// creates its buffers if they are absent, and may then draw.
    pub fn prepare<FP: FnOnce() -> P, FS: FnOnce() -> S, FD: FnOnce() -> D>(
        &mut self,
        enabled: bool,
        build_pipeline: FP,
        make_statics: FS,
        make_dynamic: FD,
    ) -> (draws: bool)
        requires
            enabled && old(self).pipeline is None ==> build_pipeline.requires(()),
            enabled && old(self).statics is None ==> make_statics.requires(()),
            enabled && old(self).dynamic is None ==> make_dynamic.requires(()),
        ensures
            draws == enabled,
            Self::filled(old(self).pipeline, enabled, build_pipeline, final(self).pipeline),
            Self::filled(old(self).statics, enabled, make_statics, final(self).statics),
            Self::filled(old(self).dynamic, enabled, make_dynamic, final(self).dynamic),
            final(self).pipeline is Some == built_after(
                old(self).pipeline is Some,
                PassEvent::Invoke { enabled },
            ),
    {
        if !enabled {
            return false;
        }
        if self.pipeline.is_none() {
            self.pipeline = Some(build_pipeline());
        }
        if self.statics.is_none() {
            self.statics = Some(make_statics());
        }
        if self.dynamic.is_none() {
            self.dynamic = Some(make_dynamic());
        }
        true
    }

    /// Drops the compiled pipeline, so that the next enabled invocation
    /// compiles it anew. The buffers stay.
    pub fn invalidate(&mut self)
        ensures
            final(self).pipeline is None,
            final(self).statics == old(self).statics,
            final(self).dynamic == old(self).dynamic,
    {
        self.pipeline = None;
    }
}

} // verus!
