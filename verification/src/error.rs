use vstd::prelude::*;

verus! {

/// Why a step of a stage did not complete.
///
/// A stage hands the first error it meets to its caller as it is and runs no
/// further cycle.
#[derive(Debug, Clone, Copy, PartialEq, Eq, Structural)]
pub enum AflError {
    /// The input of a testcase could not be brought into memory.
    InputLoad,
    /// The mutator failed in `mutate` or in `post_exec`.
    MutatorFailure,
    /// The state could not run or judge an input.
    EvaluationFailure,
    /// The event manager could not deliver an event.
    EventPublishFailure,
}

} // verus!
