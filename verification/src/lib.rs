//! Runtime warnings that can be switched off for a dynamic scope.
//!
//! A warning is a diagnostic action with an identity ([`WarningId`]). Its body
//! runs only while no guard for that identity is held on the execution
//! context at hand.
//!
//! * The context is an explicit value. Every operation names the
//!   [`SuppressionContext`] it reads or changes, so two contexts, say those
//!   of two worker threads, never share state and need no locking. A context
//!   carries the number it was created under, and a guard can be released on
//!   the context it was acquired on and on no other.
//! * A guard ([`Allow`]) stands for one entry of a context's stack. It is
//!   acquired with [`Allow::new`] and given back with [`Allow::release`],
//!   innermost first. [`allow`] holds a guard around a closure and releases
//!   it whatever value the closure returns. Nothing here runs when a scope is
//!   left by unwinding: a caller that catches panics must not reuse the
//!   context the panic crossed.
//! * A computation that runs in steps is wrapped in an [`AllowFuture`]. The
//!   warning is suppressed only while a step of that computation is running,
//!   on the context that runs the step; between steps the context is as if
//!   the computation did not exist.
//! * Suppression follows the dynamic scope on one context and nothing else.
//!   Work that is started inside a guarded scope but runs later, or on another
//!   context, is not covered by that guard; wrap it on its own account.
//! * A warning is identified by the number it is declared under
//!   ([`Warning::ID`]). Declarations that share a number are one warning; a
//!   [`Registry`] accepts each number once and so keeps declarations apart.
//!   Identities are always compared: there is no mode in which suppression is
//!   switched off.
//!
//! [`laws`] states what holds of these operations for every context and every
//! warning.

pub mod context;
pub mod future;
pub mod guard;
pub mod id;
pub mod laws;
pub mod registry;
pub mod warning;

pub use context::{ContextView, SuppressionContext};
pub use future::{AllowFuture, AllowFutureExt, Phase, Progress};
pub use guard::Allow;
pub use id::WarningId;
pub use registry::Registry;
pub use warning::Warning;

use vstd::prelude::*;

verus! {

/// Runs `item` with the warning `W` suppressed on `ctx`, and hands back what
/// `item` returned: [`WarningId::allow`] for the identity of `W`.
pub fn allow<W: Warning + ?Sized, O>(
    ctx: &mut SuppressionContext,
    item: impl FnOnce(&mut SuppressionContext) -> O,
) -> (out: O)
    requires
        forall|c: &mut SuppressionContext|
            c@ == old(ctx)@.push(WarningId::numbered(W::ID)) ==> #[trigger] item.requires((c,)),
        forall|c: &mut SuppressionContext, o: O|
            c@ == old(ctx)@.push(WarningId::numbered(W::ID)) && #[trigger] item.ensures((c,), o)
                ==> final(c)@ == c@,
    ensures
        final(ctx)@ == old(ctx)@,
        exists|c: &mut SuppressionContext|
            c@ == old(ctx)@.push(WarningId::numbered(W::ID)) && final(c)@ == c@
                && #[trigger] item.ensures((c,), out),
{
    WarningId::of::<W>().allow(ctx, item)
}

} // verus!
