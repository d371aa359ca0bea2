//! The per-context stack of suppressed warnings.

use crate::id::WarningId;
use vstd::prelude::*;

verus! {

/// A suppression context as contracts see it: which context it is, and the
/// identities of the guards held on it, outermost first.
#[verifier::ext_equal]
pub struct ContextView {
    /// The number the context was created under.
    pub id: u64,
    /// The entries of the held guards, outermost first.
    pub stack: Seq<WarningId>,
}

impl ContextView {
    /// The context numbered `id` with no guard held.
    pub open spec fn empty(id: u64) -> ContextView {
        ContextView { id, stack: Seq::empty() }
    }

    /// The same context with `w` appended as the innermost entry.
    pub open spec fn push(self, w: WarningId) -> ContextView {
        ContextView { id: self.id, stack: self.stack.push(w) }
    }

    /// The same context without its innermost entry.
    pub open spec fn drop_last(self) -> ContextView {
        ContextView { id: self.id, stack: self.stack.drop_last() }
    }

    /// The number of entries.
    pub open spec fn len(self) -> nat {
        self.stack.len()
    }

    /// The innermost entry.
    pub open spec fn last(self) -> WarningId {
        self.stack.last()
    }

    /// Whether any entry equals `w`.
    pub open spec fn contains(self, w: WarningId) -> bool {
        self.stack.contains(w)
    }
}

/// The suppression state of one execution context: the identities of the
/// guards now in dynamic scope on it, outermost first.
///
/// A warning is suppressed on the context while its identity occurs anywhere
/// in the stack. Every context carries the number it was created under, by
/// which a guard knows the context it belongs to; contexts that are in use
/// side by side must be created under different numbers.
#[derive(Debug)]
pub struct SuppressionContext {
    id: u64,
    stack: Vec<WarningId>,
}

impl View for SuppressionContext {
    type V = ContextView;

    closed spec fn view(&self) -> ContextView {
        ContextView { id: self.id, stack: self.stack@ }
    }
}

impl SuppressionContext {
    /// The context numbered `id`, with no guard held on it.
    pub fn new(id: u64) -> (ctx: Self)
        ensures
            ctx@ == ContextView::empty(id),
    {
        SuppressionContext { id, stack: Vec::new() }
    }

    /// The number this context was created under.
    pub fn id(&self) -> (id: u64)
        ensures
            id == self@.id,
    {
        self.id
    }

    /// The number of guards held on this context.
    pub fn depth(&self) -> (n: usize)
        ensures
            n == self@.len(),
    {
        self.stack.len()
    }

    /// The identity of the innermost guard, if any guard is held.
    pub fn innermost(&self) -> (top: Option<WarningId>)
        ensures
            self@.len() == 0 ==> top is None,
            self@.len() > 0 ==> top == Some(self@.last()),
    {
        let n: usize = self.stack.len();
        if n == 0 {
            None
        } else {
            Some(self.stack[n - 1])
        }
    }

    /// Appends `id` as the innermost entry.
    pub fn push(&mut self, id: WarningId)
        ensures
            final(self)@ == old(self)@.push(id),
    {
        self.stack.push(id);
    }

    /// Removes the innermost entry, the one appended last.
    ///
    /// Popping an empty stack means a guard was released that was never
    /// acquired; callers must rule that out.
    pub fn pop(&mut self)
        requires
            old(self)@.len() > 0,
        ensures
            final(self)@ == old(self)@.drop_last(),
    {
        self.stack.pop();
    }

    /// Whether any entry equals `id`, that is, whether the warning is
    /// suppressed on this context.
    pub fn contains(&self, id: WarningId) -> (found: bool)
        ensures
            found == self@.contains(id),
    {
        let n: usize = self.stack.len();
        let mut i: usize = 0;
        while i < n
            invariant
                n == self.stack@.len(),
                i <= n,
                forall|j: int| 0 <= j < i ==> self.stack@[j] != id,
            decreases n - i,
        {
            if self.stack[i] == id {
                return true;
            }
            i += 1;
        }
        false
    }
}

} // verus!
