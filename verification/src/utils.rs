use vstd::prelude::*;

verus! {

/// A source of pseudo-random numbers.
///
/// The relation says what one draw may do. An implementation that states
/// nothing keeps it as it is, which allows everything within the bound; one
/// that is verified states its own, and its method is held to it.
pub trait Rand: Sized {
    /// What one call of `below` may do to the source, and what it may draw.
    open spec fn drawn(before: Self, upper_bound_excl: u64, after: Self, value: u64) -> bool {
        true
    }

    /// A number below `upper_bound_excl`.
    ///
    /// Every implementation owes its callers the bound; which number below it
    /// comes back is left to the implementation.
    fn below(&mut self, upper_bound_excl: u64) -> (value: u64)
        ensures
            Self::drawn(*old(self), upper_bound_excl, *final(self), value),
            upper_bound_excl > 0 ==> value < upper_bound_excl,
    ;
}

} // verus!
