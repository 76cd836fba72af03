use vstd::prelude::*;

verus! {

/// What the fuzzed target is fed.
///
/// A stage never looks into an input. It only duplicates the input of a
/// testcase before it lets the mutator change the duplicate.
pub trait Input: Clone + Sized {

}

} // verus!
