use vstd::prelude::*;

verus! {

/// A value that can be reset to its default contents in place, without giving
/// up the storage it owns.
pub trait Clear: Sized + Default {
    /// Whether the value holds the contents that `default` gives.
    spec fn is_cleared(&self) -> bool;

    /// Whatever `default` returns is in the cleared state.
    proof fn lemma_default_is_cleared(v: Self)
        requires
            call_ensures(Self::default, (), v),
        ensures
            v.is_cleared(),
    ;

    /// The cleared state is a single value: any two cleared values are equal.
    proof fn lemma_cleared_unique(a: Self, b: Self)
        requires
            a.is_cleared(),
            b.is_cleared(),
        ensures
            a == b,
    ;

    /// Resets the value to its default contents in place.
    fn clear(&mut self)
        ensures
            final(self).is_cleared(),
    ;
}

impl<U> Clear for Option<U> {
    open spec fn is_cleared(&self) -> bool {
        self is None
    }

    proof fn lemma_default_is_cleared(v: Self) {
    }

    proof fn lemma_cleared_unique(a: Self, b: Self) {
    }

    fn clear(&mut self) {
        *self = None;
    }
}

} // verus!
