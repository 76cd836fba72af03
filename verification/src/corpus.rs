use vstd::prelude::*;
use crate::error::AflError;
use crate::inputs::Input;
use crate::utils::Rand;

verus! {

/// The pool of testcases that mutation starts from.
///
/// A stage passes the corpus of the state on to the mutator and calls none
/// of its methods.
pub trait Corpus<I: Input, R: Rand> {

}

/// One entry of the corpus: an input, which may or may not be in memory.
pub struct Testcase<I> {
    input: Option<I>,
}

impl<I> Testcase<I> {
    /// The input that the testcase holds in memory, if it holds one.
    pub closed spec fn stored(&self) -> Option<I> {
        self.input
    }

    /// A testcase whose input is in memory.
    pub fn new(input: I) -> (testcase: Self)
        ensures
            testcase.stored() == Some(input),
    {
        Testcase { input: Some(input) }
    }

    /// A testcase whose input could not be brought into memory.
    pub fn unavailable() -> (testcase: Self)
        ensures
            testcase.stored() == None::<I>,
    {
        Testcase { input: None }
    }

    /// The input of the testcase, or `InputLoad` where it is not in memory.
    pub fn load_input(&self) -> (loaded: Result<&I, AflError>)
        ensures
            match self.stored() {
                Some(input) => loaded == Ok::<&I, AflError>(&input),
                None => loaded == Err::<&I, AflError>(AflError::InputLoad),
            },
    {
        match &self.input {
            Some(input) => Ok(input),
            None => Err(AflError::InputLoad),
        }
    }
}

} // verus!
