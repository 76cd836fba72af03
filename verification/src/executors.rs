use vstd::prelude::*;
use crate::inputs::Input;

verus! {

/// Runs one input against the target.
///
/// A stage never calls the executor itself: the state does, while it
/// evaluates an input.
pub trait Executor<I: Input> {

}

} // verus!
