//! Transactional shader hot-reload: a trial pipeline replaces the active one
//! only if its compilation raised no validation error.

use vstd::prelude::*;
use crate::render_pass::RenderPass;

verus! {

/// A vertex and a fragment shader source that wait to be compiled.
pub struct ShaderSource {
    pub vs: String,
    pub fs: String,
}

/// The active pipeline `P` of a demo, the shader source that is current, and
/// the newest request to replace them.
pub struct HotReload<P> {
    /// The pipeline that draws; always a valid one.
    pub active: P,
    /// The shader source of the active pipeline, from which the passes
    /// compile their own pipelines.
    pub source: ShaderSource,
    /// The newest shader source that has not been handed to the compiler.
    pub pending: Option<ShaderSource>,
}

/// The verdict on a trial pipeline: it is accepted where the validation
/// scope that was open during its compilation caught no error, and the
/// error is returned otherwise.
pub fn reload_pipeline<P>(trial: P, scope_error: Option<String>) -> (verdict: Result<P, String>)
    ensures
        scope_error is None ==> verdict == Ok::<P, String>(trial),
        scope_error is Some ==> verdict == Err::<P, String>(scope_error->Some_0),
{
    match scope_error {
        None => Ok(trial),
        Some(err) => Err(err),
    }
}

/// The passes of `after` are those of `before` without their pipelines.
pub open spec fn all_invalidated<P, S, D>(
    before: Seq<RenderPass<P, S, D>>,
    after: Seq<RenderPass<P, S, D>>,
) -> bool {
    &&& after.len() == before.len()
    &&& forall|i: int|
        0 <= i < before.len() ==> {
            &&& (#[trigger] after[i]).pipeline is None
            &&& after[i].statics == before[i].statics
            &&& after[i].dynamic == before[i].dynamic
        }
}

impl<P> HotReload<P> {
    /// A reloader whose active pipeline is `active`, compiled from `source`,
    /// with nothing pending.
    pub fn new(active: P, source: ShaderSource) -> (reload: Self)
        ensures
            reload.active == active,
            reload.source == source,
            reload.pending is None,
    {
        HotReload { active, source, pending: None }
    }

    /// Records new shader source; it replaces a request that still waits.
    pub fn request(&mut self, source: ShaderSource)
        ensures
            final(self).pending == Some(source),
            final(self).active == old(self).active,
            final(self).source == old(self).source,
    {
        self.pending = Some(source);
    }

    /// Hands out the waiting request, if there is one, and clears the slot.
    pub fn take_pending(&mut self) -> (source: Option<ShaderSource>)
        ensures
            source == old(self).pending,
            final(self).pending is None,
            final(self).active == old(self).active,
            final(self).source == old(self).source,
    {
        self.pending.take()
    }

    /// Applies the verdict on a trial pipeline that was compiled from
    /// `source`. An accepted pipeline becomes the active one, `source`
    /// becomes current, and every dependent pass loses its compiled
    /// pipeline, so that it compiles anew on next use. On a rejection nothing
    /// changes and the error is returned.
    pub fn apply<S, D>(
        &mut self,
        verdict: Result<P, String>,
        source: ShaderSource,
        dependents: &mut Vec<RenderPass<P, S, D>>,
    ) -> (error: Option<String>)
        ensures
            final(self).pending == old(self).pending,
            verdict is Ok ==> final(self).active == verdict->Ok_0,
            verdict is Ok ==> final(self).source == source,
            verdict is Err ==> final(self).source == old(self).source,
            verdict is Ok ==> error is None,
            verdict is Ok ==> all_invalidated(old(dependents)@, final(dependents)@),
            verdict is Err ==> final(self).active == old(self).active,
            verdict is Err ==> error == Some(verdict->Err_0),
            verdict is Err ==> final(dependents)@ == old(dependents)@,
    {
        match verdict {
            Ok(trial) => {
                self.active = trial;
                self.source = source;
                let n = dependents.len();
                let mut i: usize = 0;
                while i < n
                    invariant
                        0 <= i <= n,
                        dependents@.len() == n,
                        n == old(dependents)@.len(),
                        forall|j: int|
                            0 <= j < i ==> {
                                &&& (#[trigger] dependents@[j]).pipeline is None
                                &&& dependents@[j].statics == old(dependents)@[j].statics
                                &&& dependents@[j].dynamic == old(dependents)@[j].dynamic
                            },
                        forall|j: int| i <= j < n ==> dependents@[j] == old(dependents)@[j],
                    decreases n - i,
                {
                    dependents[i].invalidate();
                    i += 1;
                }
                None
            },
            Err(err) => Some(err),
        }
    }

    /// Settles a reload attempt in one step: the trial pipeline, compiled
    /// from `source`, is judged by the error that the validation scope
    /// caught, and the verdict is applied. After a failed validation the
    /// active pipeline and the current source are those from before the
    /// attempt and no pass is touched.
    pub fn settle<S, D>(
        &mut self,
        trial: P,
        source: ShaderSource,
        scope_error: Option<String>,
        dependents: &mut Vec<RenderPass<P, S, D>>,
    ) -> (error: Option<String>)
        ensures
            final(self).pending == old(self).pending,
            error == scope_error,
            scope_error is Some ==> final(self).active == old(self).active,
            scope_error is Some ==> final(self).source == old(self).source,
            scope_error is None ==> final(self).source == source,
            scope_error is Some ==> final(dependents)@ == old(dependents)@,
            scope_error is None ==> final(self).active == trial,
            scope_error is None ==> all_invalidated(old(dependents)@, final(dependents)@),
    {
        let verdict = reload_pipeline(trial, scope_error);
        self.apply(verdict, source, dependents)
    }
}

} // verus!
