//! The guard that holds one suppression.

use crate::context::{ContextView, SuppressionContext};
use crate::id::WarningId;
use vstd::prelude::*;

verus! {

/// One active suppression: the token for a single entry of a context's stack.
///
/// Acquiring the guard pushes the entry; releasing it pops the entry again.
/// A guard is released exactly once, because releasing consumes it, and only
/// on the context it was acquired on, while its entry is the innermost one.
#[derive(Debug)]
pub struct Allow {
    warning: WarningId,
    context: u64,
    below: usize,
}

impl Allow {
    /// What `warning` means in contracts.
    pub closed spec fn spec_warning(&self) -> WarningId {
        self.warning
    }

    /// The warning this guard suppresses.
    #[verifier::when_used_as_spec(spec_warning)]
    pub fn warning(&self) -> (id: WarningId)
        ensures
            id == self.warning(),
    {
        self.warning
    }

    /// The number of the context this guard was acquired on.
    pub closed spec fn context(&self) -> u64 {
        self.context
    }

    /// The number of entries that lie beneath this guard's own.
    pub closed spec fn below(&self) -> nat {
        self.below as nat
    }

    /// Whether `ctx` is the context this guard was acquired on and the
    /// guard's entry is its innermost.
    pub open spec fn is_innermost(&self, ctx: ContextView) -> bool {
        &&& ctx.id == self.context()
        &&& ctx.len() == self.below() + 1
        &&& ctx.last() == self.warning()
    }

    /// Suppresses `warning` on `ctx` until the guard is released.
    pub fn new(warning: WarningId, ctx: &mut SuppressionContext) -> (guard: Allow)
        ensures
            final(ctx)@ == old(ctx)@.push(warning),
            guard.warning() == warning,
            guard.context() == old(ctx)@.id,
            guard.below() == old(ctx)@.len(),
            guard.is_innermost(final(ctx)@),
    {
        let context: u64 = ctx.id();
        let below: usize = ctx.depth();
        ctx.push(warning);
        Allow { warning, context, below }
    }

    /// Whether the guard may be released on `ctx` now: `ctx` is the context
    /// the guard was acquired on, and the guard's entry is its innermost.
    pub fn can_release(&self, ctx: &SuppressionContext) -> (ok: bool)
        ensures
            ok == self.is_innermost(ctx@),
    {
        match ctx.innermost() {
            Some(top) => ctx.id() == self.context && ctx.depth() - 1 == self.below && top
                == self.warning,
            None => false,
        }
    }

    /// Ends the suppression: removes the guard's entry from `ctx`, the
    /// context it was acquired on.
    pub fn release(self, ctx: &mut SuppressionContext)
        requires
            self.is_innermost(old(ctx)@),
        ensures
            final(ctx)@ == old(ctx)@.drop_last(),
            final(ctx)@.len() == self.below(),
    {
        ctx.pop();
    }
}

} // verus!
