use vstd::prelude::*;
use std::rc::Rc;
use crate::corpus::{Corpus, Testcase};
use crate::error::AflError;
use crate::inputs::Input;
use crate::utils::Rand;

verus! {

/// Changes inputs, and learns from what became of them.
///
/// The two relations say what one call may do. An implementation that states
/// nothing keeps them as they are, which allows everything; one that is
/// verified states its own, and its methods are held to them.
pub trait Mutator<C, I, R>: Sized where C: Corpus<I, R>, I: Input, R: Rand {
    /// What one call of `mutate` may do: `before` and `after` hold the
    /// mutator, the random source, the corpus and the input as the call found
    /// and left them.
    open spec fn mutated(
        before: (Self, R, C, I),
        stage_idx: i32,
        after: (Self, R, C, I),
        res: Result<(), AflError>,
    ) -> bool {
        true
    }

    /// Changes `input` in place. The mutator may draw on `rand` and on the
    /// testcases of `corpus`; `stage_idx` counts the cycles of the stage
    /// that is calling, from zero.
    fn mutate(&mut self, rand: &mut R, corpus: &mut C, input: &mut I, stage_idx: i32) -> (res:
        Result<(), AflError>)
        ensures
            Self::mutated(
                (*old(self), *old(rand), *old(corpus), *old(input)),
                stage_idx,
                (*final(self), *final(rand), *final(corpus), *final(input)),
                res,
            ),
    ;

    /// What one call of `post_exec` may do to the mutator.
    open spec fn notified(
        before: Self,
        is_interesting: bool,
        new_testcase: Option<Rc<Testcase<I>>>,
        stage_idx: i32,
        after: Self,
        res: Result<(), AflError>,
    ) -> bool {
        true
    }

    /// Tells the mutator what became of the input it changed in cycle
    /// `stage_idx`: whether the state found it interesting, and the testcase
    /// that the state made of it, if it made one.
    fn post_exec(
        &mut self,
        is_interesting: bool,
        new_testcase: Option<Rc<Testcase<I>>>,
        stage_idx: i32,
    ) -> (res: Result<(), AflError>)
        ensures
            Self::notified(*old(self), is_interesting, new_testcase, stage_idx, *final(self), res),
    ;
}

} // verus!
