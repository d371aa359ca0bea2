//! Suppression around a computation that runs in steps.

use crate::context::{ContextView, SuppressionContext};
use crate::guard::Allow;
use crate::id::WarningId;
use crate::warning::Warning;
use std::future::Future;
use vstd::prelude::*;

verus! {

/// What one step of a computation reports to its scheduler.
#[derive(Debug, PartialEq, Eq)]
pub enum Progress<T> {
    /// The computation is suspended and wants to be driven again.
    Pending,
    /// The computation has finished with this result.
    Ready(T),
}

/// Where a wrapped computation stands between and during its steps.
#[derive(Clone, Copy, Debug, PartialEq, Eq, Structural)]
pub enum Phase {
    /// Not being driven; no guard is held.
    Armed,
    /// One step is running; the guard for that step is held.
    Driving,
    /// The computation has reported completion; it is not driven again.
    Finished,
}

#[derive(Debug)]
enum Stage {
    Armed,
    Driving(Allow),
    Finished,
}

/// A computation together with the warning that is suppressed whenever the
/// computation is actually running.
///
/// The guard is acquired when a step begins, on the context that performs
/// that step, and released when the step hands control back, whether the
/// computation finished or only suspended. Between two steps no guard is held.
#[derive(Debug)]
pub struct AllowFuture<F> {
    future: F,
    warning: WarningId,
    stage: Stage,
}

impl<F> AllowFuture<F> {
    /// The wrapped computation.
    pub closed spec fn inner(&self) -> F {
        self.future
    }

    /// What `warning` means in contracts.
    pub closed spec fn spec_warning(&self) -> WarningId {
        self.warning
    }

    /// What `phase` means in contracts.
    pub closed spec fn spec_phase(&self) -> Phase {
        match self.stage {
            Stage::Armed => Phase::Armed,
            Stage::Driving(_) => Phase::Driving,
            Stage::Finished => Phase::Finished,
        }
    }

    /// Whether a step is running on `ctx` and its guard is the innermost
    /// entry there: false while no step is running, and false of every
    /// context but the one the step began on.
    pub closed spec fn holds_innermost(&self, ctx: ContextView) -> bool {
        match self.stage {
            Stage::Driving(guard) => guard.is_innermost(ctx) && guard.warning() == self.warning,
            _ => false,
        }
    }

    /// A wrapper holds a guard only while a step is running, and then the
    /// guard's entry is one for the wrapper's warning.
    pub proof fn lemma_guard_held_only_while_driving(&self, ctx: ContextView)
        ensures
            self.holds_innermost(ctx) ==> self.phase() == Phase::Driving,
            self.holds_innermost(ctx) ==> ctx.len() > 0 && ctx.last() == self.warning(),
    {
    }

    /// Wraps `future` so that `warning` is suppressed during each of its
    /// steps.
    pub fn new(future: F, warning: WarningId) -> (wrapped: Self)
        ensures
            wrapped.inner() == future,
            wrapped.warning() == warning,
            wrapped.phase() == Phase::Armed,
            forall|ctx: ContextView| !wrapped.holds_innermost(ctx),
    {
        AllowFuture { future, warning, stage: Stage::Armed }
    }

    /// The warning suppressed while the computation runs.
    #[verifier::when_used_as_spec(spec_warning)]
    pub fn warning(&self) -> (id: WarningId)
        ensures
            id == self.warning(),
    {
        self.warning
    }

    /// The phase the wrapper is in.
    #[verifier::when_used_as_spec(spec_phase)]
    pub fn phase(&self) -> (phase: Phase)
        ensures
            phase == self.phase(),
    {
        match &self.stage {
            Stage::Armed => Phase::Armed,
            Stage::Driving(_) => Phase::Driving,
            Stage::Finished => Phase::Finished,
        }
    }

    /// Whether the step that is running can be ended on `ctx` now: a step is
    /// running, it began on `ctx`, and its guard is the innermost entry there.
    pub fn can_end_step(&self, ctx: &SuppressionContext) -> (ok: bool)
        ensures
            ok == self.holds_innermost(ctx@),
    {
        match &self.stage {
            Stage::Driving(guard) => guard.can_release(ctx) && guard.warning() == self.warning,
            _ => false,
        }
    }

    /// Begins one step on `ctx`: acquires the guard on the context that is
    /// about to run the step.
    pub fn begin_step(&mut self, ctx: &mut SuppressionContext)
        requires
            old(self).phase() == Phase::Armed,
        ensures
            final(self).phase() == Phase::Driving,
            final(self).holds_innermost(final(ctx)@),
            final(ctx)@ == old(ctx)@.push(old(self).warning()),
            final(self).warning() == old(self).warning(),
            final(self).inner() == old(self).inner(),
    {
        let guard = Allow::new(self.warning, ctx);
        self.stage = Stage::Driving(guard);
    }

    /// Ends the running step on `ctx`: releases the guard acquired when the
    /// step began. `completed` tells whether the computation reported
    /// completion in this step; if so the wrapper is finished, else it is
    /// armed for the next step.
    pub fn end_step(&mut self, ctx: &mut SuppressionContext, completed: bool)
        requires
            old(self).holds_innermost(old(ctx)@),
        ensures
            final(ctx)@ == old(ctx)@.drop_last(),
            old(ctx)@.last() == old(self).warning(),
            final(self).phase() == (if completed {
                Phase::Finished
            } else {
                Phase::Armed
            }),
            final(self).warning() == old(self).warning(),
            final(self).inner() == old(self).inner(),
            forall|other: ContextView| !final(self).holds_innermost(other),
    {
        let mut stage = if completed {
            Stage::Finished
        } else {
            Stage::Armed
        };
        core::mem::swap(&mut self.stage, &mut stage);
        match stage {
            Stage::Driving(guard) => guard.release(ctx),
            _ => {},
        }
    }

    /// The wrapped computation, to be advanced by the caller between
    /// `begin_step` and `end_step`.
    pub fn inner_mut(&mut self) -> (future: &mut F)
        ensures
            *future == old(self).inner(),
            final(self).inner() == *final(future),
            final(self).warning() == old(self).warning(),
            final(self).phase() == old(self).phase(),
            forall|ctx: ContextView|
                final(self).holds_innermost(ctx) == old(self).holds_innermost(ctx),
    {
        &mut self.future
    }

    /// Gives the wrapped computation back.
    pub fn into_inner(self) -> (future: F)
        ensures
            future == self.inner(),
    {
        self.future
    }

    /// Drives the computation by one step with the warning suppressed.
    ///
    /// `drive` advances the computation; it runs on `ctx` with one more entry
    /// for the warning, and `ctx` is afterwards as it was before, whatever
    /// `drive` reported. The report is handed back unchanged.
    pub fn poll_with<O>(
        &mut self,
        ctx: &mut SuppressionContext,
        drive: impl FnOnce(&mut F, &mut SuppressionContext) -> Progress<O>,
    ) -> (out: Progress<O>)
        requires
            old(self).phase() == Phase::Armed,
            forall|f: &mut F, c: &mut SuppressionContext|
                *f == old(self).inner() && c@ == old(ctx)@.push(old(self).warning())
                    ==> #[trigger] drive.requires((f, c)),
            forall|f: &mut F, c: &mut SuppressionContext, o: Progress<O>|
                *f == old(self).inner() && c@ == old(ctx)@.push(old(self).warning())
                    && #[trigger] drive.ensures((f, c), o) ==> final(c)@ == c@,
        ensures
            final(ctx)@ == old(ctx)@,
            final(self).warning() == old(self).warning(),
            final(self).phase() == (if out is Ready {
                Phase::Finished
            } else {
                Phase::Armed
            }),
            forall|other: ContextView| !final(self).holds_innermost(other),
            exists|f: &mut F, c: &mut SuppressionContext|
                *f == old(self).inner() && *final(f) == final(self).inner()
                    && c@ == old(ctx)@.push(old(self).warning()) && final(c)@ == c@
                    && #[trigger] drive.ensures((f, c), out),
    {
        self.begin_step(ctx);
        let out = drive(&mut self.future, ctx);
        let completed = match &out {
            Progress::Ready(_) => true,
            Progress::Pending => false,
        };
        self.end_step(ctx, completed);
        out
    }
}

/// Adds `allow` to every future.
pub trait AllowFutureExt: Future {
    /// Allow a warning while a future is running.
    fn allow<W: Warning + ?Sized>(self) -> (wrapped: AllowFuture<Self>) where Self: Sized
        ensures
            wrapped.inner() == self,
            wrapped.warning() == WarningId::numbered(W::ID),
            wrapped.phase() == Phase::Armed,
    {
        AllowFuture::new(self, WarningId::of::<W>())
    }
}

impl<F: Future> AllowFutureExt for F {

}

} // verus!
