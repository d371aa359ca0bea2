//! What holds of suppression on every context and for every warning.
//!
//! Each law is stated over context values related as the operations relate
//! them: `held@ == before@.push(w)` is what acquiring a guard for `w`
//! establishes, `after@ == held@.drop_last()` what releasing the innermost
//! guard establishes.

use crate::context::{ContextView, SuppressionContext};
use crate::guard::Allow;
use crate::id::WarningId;
use crate::registry::Registry;
use vstd::prelude::*;

verus! {

/// On a context on which no guard is held, every warning is enabled.
pub proof fn law_fresh_context_enables_every_warning(
    ctx: SuppressionContext,
    id: u64,
    w: WarningId,
)
    requires
        ctx@ == ContextView::empty(id),
    ensures
        w.enabled(&ctx),
{
}

/// While a guard for a warning is held on a context the warning is disabled
/// there, and releasing the guard puts the context back as it was. So the
/// warning is enabled again unless an outer guard for it is still held, and
/// whatever runs on the context next, a sibling between two steps of a
/// wrapped computation for one, finds every warning as it was before the
/// guard was acquired.
pub proof fn law_guard_suppresses_until_released(
    before: SuppressionContext,
    held: SuppressionContext,
    after: SuppressionContext,
    w: WarningId,
    other: WarningId,
)
    requires
        held@ == before@.push(w),
        after@ == held@.drop_last(),
    ensures
        !w.enabled(&held),
        after@ == before@,
        w.enabled(&before) ==> w.enabled(&after),
        other.enabled(&after) == other.enabled(&before),
{
    assert(held@.stack.last() == w);
    assert(after@.stack =~= before@.stack);
}

/// Guards nest. With a guard for `w` acquired first and one for another
/// warning `v` acquired inside it, both are disabled; releasing the guard for
/// `v` alone gives `v` back what it had before while `w` stays disabled;
/// releasing the guard for `w` afterwards restores the context.
pub proof fn law_nested_guards_release_innermost_first(
    before: SuppressionContext,
    outer: SuppressionContext,
    inner: SuppressionContext,
    inner_released: SuppressionContext,
    outer_released: SuppressionContext,
    w: WarningId,
    v: WarningId,
)
    requires
        w != v,
        outer@ == before@.push(w),
        inner@ == outer@.push(v),
        inner_released@ == inner@.drop_last(),
        outer_released@ == inner_released@.drop_last(),
    ensures
        !w.enabled(&inner),
        !v.enabled(&inner),
        !w.enabled(&inner_released),
        v.enabled(&inner_released) == v.enabled(&before),
        outer_released@ == before@,
        w.enabled(&outer_released) == w.enabled(&before),
        v.enabled(&outer_released) == v.enabled(&before),
{
    assert(inner@.stack.last() == v);
    assert(inner@.stack[before@.len() as int] == w);
    assert(inner_released@.stack =~= outer@.stack);
    assert(outer_released@.stack =~= before@.stack);
    if before@.contains(v) {
        let i = choose|i: int| 0 <= i < before@.len() && before@.stack[i] == v;
        assert(outer@.stack[i] == v);
    }
}

/// A guard can be released right after it was acquired, and its release
/// undoes its acquisition: the context has the depth and the entries it had
/// before, so each guard accounts for exactly one entry.
pub proof fn law_release_undoes_acquire(
    before: SuppressionContext,
    held: SuppressionContext,
    after: SuppressionContext,
    guard: Allow,
)
    requires
        held@ == before@.push(guard.warning()),
        guard.context() == before@.id,
        guard.below() == before@.len(),
        after@ == held@.drop_last(),
    ensures
        guard.is_innermost(held@),
        after@.len() == before@.len(),
        after@ == before@,
{
    assert(after@.stack =~= before@.stack);
}

/// Contexts are independent. A guard acquired on one context disables the
/// warning there; on no other context can it be released, whatever that
/// context's stack looks like, so acquiring and releasing it leaves every
/// other context's entries, its own guards for the same warning included,
/// where they are.
pub proof fn law_contexts_do_not_interfere(
    a_before: SuppressionContext,
    a_held: SuppressionContext,
    b: SuppressionContext,
    guard: Allow,
)
    requires
        a_held@ == a_before@.push(guard.warning()),
        guard.context() == a_before@.id,
        guard.below() == a_before@.len(),
        b@.id != a_before@.id,
    ensures
        !guard.warning().enabled(&a_held),
        guard.is_innermost(a_held@),
        !guard.is_innermost(b@),
{
    assert(a_held@.stack.last() == guard.warning());
}

/// The identities that one registry hands out differ from one another. With a
/// warning declared under `first`, a declaration under `second` is accepted
/// only if the two numbers differ, and then the two identities differ.
pub proof fn law_declared_identities_differ(
    before: Registry,
    after: Registry,
    first: u64,
    second: u64,
)
    requires
        after@ == before@.insert(first),
        !after@.contains(second),
    ensures
        first != second,
        WarningId::numbered(first) != WarningId::numbered(second),
{
    WarningId::lemma_number_decides_identity(first, second);
}

} // verus!
