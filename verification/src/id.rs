//! The identity of a declared warning.

use crate::context::SuppressionContext;
use crate::guard::Allow;
use crate::warning::Warning;
use vstd::prelude::*;

verus! {

/// The identity of one declared warning: a small copyable token that is equal
/// to another exactly when both denote the same declaration.
#[derive(Clone, Copy, Debug, PartialEq, Eq, Structural)]
pub struct WarningId {
    tag: u64,
}

impl WarningId {
    /// The number the identified warning is registered under.
    pub closed spec fn tag(self) -> u64 {
        self.tag
    }

    /// The identity of the warning registered under `number`.
    pub closed spec fn numbered(number: u64) -> WarningId {
        WarningId { tag: number }
    }

    pub(crate) fn from_number(number: u64) -> (id: WarningId)
        ensures
            id == Self::numbered(number),
    {
        WarningId { tag: number }
    }

    /// Get the identity of a warning.
    pub fn of<W: Warning + ?Sized>() -> (id: WarningId)
        ensures
            id == Self::numbered(W::ID),
    {
        Self::from_number(W::ID)
    }

    /// What `enabled` means in contracts: no entry of `ctx` is this warning's.
    pub open spec fn spec_enabled(&self, ctx: &SuppressionContext) -> bool {
        !ctx@.contains(*self)
    }

    /// Whether the warning is enabled on `ctx`: true exactly while no guard for
    /// it is held there.
    #[verifier::when_used_as_spec(spec_enabled)]
    pub fn enabled(&self, ctx: &SuppressionContext) -> (on: bool)
        ensures
            on == !ctx@.contains(*self),
    {
        !ctx.contains(*self)
    }

    /// Runs `f` if the warning is enabled on `ctx` and skips it otherwise.
    ///
    /// The result tells which happened: `Some` with what `f` returned after
    /// its one run, `None` when `f` was not run at all.
    pub fn if_enabled<O>(&self, ctx: &SuppressionContext, f: impl FnOnce() -> O) -> (ran: Option<O>)
        requires
            !ctx@.contains(*self) ==> f.requires(()),
        ensures
            ctx@.contains(*self) ==> ran is None,
            !ctx@.contains(*self) ==> (ran matches Some(o) && f.ensures((), o)),
    {
        if self.enabled(ctx) {
            Some(f())
        } else {
            None
        }
    }

    /// Runs `item` with the warning suppressed on `ctx`, and hands back what
    /// `item` returned, a failure value included.
    ///
    /// The guard is held exactly for the call: `item` sees the stack of `ctx`
    /// with one more entry for the warning, and `ctx` is afterwards as it was
    /// before. `item` may acquire guards of its own on the context it is
    /// handed, as long as it has released them when it returns.
    pub fn allow<O>(
        &self,
        ctx: &mut SuppressionContext,
        item: impl FnOnce(&mut SuppressionContext) -> O,
    ) -> (out: O)
        requires
            forall|c: &mut SuppressionContext|
                c@ == old(ctx)@.push(*self) ==> #[trigger] item.requires((c,)),
            forall|c: &mut SuppressionContext, o: O|
                c@ == old(ctx)@.push(*self) && #[trigger] item.ensures((c,), o) ==> final(c)@
                    == c@,
        ensures
            final(ctx)@ == old(ctx)@,
            exists|c: &mut SuppressionContext|
                c@ == old(ctx)@.push(*self) && final(c)@ == c@ && #[trigger] item.ensures(
                    (c,),
                    out,
                ),
    {
        let guard = Allow::new(*self, ctx);
        let out = item(ctx);
        guard.release(ctx);
        out
    }

    /// Two identities are equal exactly when their numbers are, and the
    /// identity registered under a number carries that number.
    pub proof fn lemma_number_decides_identity(a: u64, b: u64)
        ensures
            Self::numbered(a).tag() == a,
            (Self::numbered(a) == Self::numbered(b)) <==> (a == b),
    {
    }

    /// Every identity is the one registered under its own number.
    pub proof fn lemma_identity_is_numbered(id: WarningId)
        ensures
            id == Self::numbered(id.tag()),
    {
    }
}

} // verus!
