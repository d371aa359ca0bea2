//! Declaring warnings so that no two share a number.

use crate::id::WarningId;
use crate::warning::Warning;
use vstd::prelude::*;

verus! {

/// The numbers under which warnings have been declared.
///
/// A warning is its number, so two declarations that pick the same number by
/// accident are one warning. A program that declares its warnings through one
/// registry learns of such a clash: each number is accepted once, and the
/// identities the registry has handed out differ from one another.
#[derive(Debug)]
pub struct Registry {
    numbers: Vec<u64>,
}

impl View for Registry {
    type V = Set<u64>;

    closed spec fn view(&self) -> Set<u64> {
        self.numbers@.to_set()
    }
}

impl Registry {
    /// A registry in which no warning is declared.
    pub fn new() -> (registry: Self)
        ensures
            registry@ == Set::<u64>::empty(),
    {
        let registry = Registry { numbers: Vec::new() };
        assert(registry.numbers@.to_set() =~= Set::<u64>::empty());
        registry
    }

    /// Whether a warning is declared under `number`.
    pub fn is_declared(&self, number: u64) -> (found: bool)
        ensures
            found == self@.contains(number),
    {
        let n: usize = self.numbers.len();
        let mut i: usize = 0;
        while i < n
            invariant
                n == self.numbers@.len(),
                i <= n,
                forall|j: int| 0 <= j < i ==> self.numbers@[j] != number,
            decreases n - i,
        {
            if self.numbers[i] == number {
                return true;
            }
            i += 1;
        }
        false
    }

    /// Declares the warning `W` and hands out its identity, unless a warning
    /// is already declared under the number of `W`.
    pub fn declare<W: Warning + ?Sized>(&mut self) -> (id: Option<WarningId>)
        ensures
            old(self)@.contains(W::ID) ==> id is None && final(self)@ == old(self)@,
            !old(self)@.contains(W::ID) ==> id == Some(WarningId::numbered(W::ID)) && final(self)@
                == old(self)@.insert(W::ID),
    {
        if self.is_declared(W::ID) {
            None
        } else {
            proof {
                self.numbers@.lemma_push_to_set_commute(W::ID);
            }
            self.numbers.push(W::ID);
            Some(WarningId::of::<W>())
        }
    }
}

} // verus!
