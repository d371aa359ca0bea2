//! What every declared warning offers.

use crate::context::SuppressionContext;
use crate::future::{AllowFuture, Phase};
use crate::id::WarningId;
use std::future::Future;
use vstd::prelude::*;

verus! {

/// A declared warning.
///
/// Each declaration picks a number of its own; two declarations with the same
/// number are the same warning to every suppression context. The provided
/// methods are the operations of [`WarningId`], of [`crate::allow`] and of
/// [`AllowFuture`], bound to this warning's identity.
pub trait Warning {
    /// The number this warning is registered under.
    const ID: u64;

    /// Whether this warning is enabled on `ctx`.
    fn enabled(ctx: &SuppressionContext) -> (on: bool)
        ensures
            on == !ctx@.contains(WarningId::numbered(Self::ID)),
    {
        WarningId::from_number(Self::ID).enabled(ctx)
    }

    /// Runs `item` if this warning is enabled on `ctx`, and says whether it
    /// did.
    fn if_enabled<O>(ctx: &SuppressionContext, item: impl FnOnce() -> O) -> (ran: Option<O>)
        requires
            !ctx@.contains(WarningId::numbered(Self::ID)) ==> item.requires(()),
        ensures
            ctx@.contains(WarningId::numbered(Self::ID)) ==> ran is None,
            !ctx@.contains(WarningId::numbered(Self::ID)) ==> (ran matches Some(o) && item.ensures(
                (),
                o,
            )),
    {
        WarningId::from_number(Self::ID).if_enabled(ctx, item)
    }

    /// Runs `item` with this warning suppressed on `ctx`.
    fn allow<O>(ctx: &mut SuppressionContext, item: impl FnOnce(&mut SuppressionContext) -> O) -> (out: O)
        requires
            forall|c: &mut SuppressionContext|
                c@ == old(ctx)@.push(WarningId::numbered(Self::ID)) ==> #[trigger] item.requires(
                    (c,),
                ),
            forall|c: &mut SuppressionContext, o: O|
                c@ == old(ctx)@.push(WarningId::numbered(Self::ID)) && #[trigger] item.ensures(
                    (c,),
                    o,
                ) ==> final(c)@ == c@,
        ensures
            final(ctx)@ == old(ctx)@,
            exists|c: &mut SuppressionContext|
                c@ == old(ctx)@.push(WarningId::numbered(Self::ID)) && final(c)@ == c@
                    && #[trigger] item.ensures((c,), out),
    {
        WarningId::from_number(Self::ID).allow(ctx, item)
    }

    /// Wraps `future` so that this warning is suppressed while it runs.
    fn allow_async<F: Future>(future: F) -> (wrapped: AllowFuture<F>)
        ensures
            wrapped.inner() == future,
            wrapped.warning() == WarningId::numbered(Self::ID),
            wrapped.phase() == Phase::Armed,
    {
        AllowFuture::new(future, WarningId::from_number(Self::ID))
    }
}

} // verus!
