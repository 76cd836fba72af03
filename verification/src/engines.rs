use vstd::prelude::*;
use std::rc::Rc;
use crate::corpus::{Corpus, Testcase};
use crate::error::AflError;
use crate::executors::Executor;
use crate::inputs::Input;
use crate::utils::Rand;

verus! {

/// Owns the corpus, and decides which inputs enter it.
///
/// The two relations say what one call may do. An implementation that states
/// nothing keeps them as they are, which allows everything; one that is
/// verified states its own, and its methods are held to them.
pub trait State<C, E, I, R>: Sized where C: Corpus<I, R>, E: Executor<I>, I: Input, R: Rand {
    /// What lending the corpus out may do: the state `before` hands out the
    /// corpus `lent`, and is the state `after` once the borrower has left the
    /// corpus as `returned`.
    open spec fn corpus_lent(before: Self, lent: C, returned: C, after: Self) -> bool {
        true
    }

    /// The corpus of this state, for a borrower to read and change.
    fn corpus_mut(&mut self) -> (corpus: &mut C)
        ensures
            Self::corpus_lent(*old(self), *corpus, *final(corpus), *final(self)),
    ;

    /// What one call of `evaluate_input` may do to the state, and what it may
    /// answer.
    open spec fn evaluated(
        before: Self,
        input: I,
        after: Self,
        res: Result<(bool, Option<Rc<Testcase<I>>>), AflError>,
    ) -> bool {
        true
    }

    /// Runs `input` against the target and judges the outcome. The answer
    /// says whether the input is interesting, and holds the testcase that the
    /// state has added to its corpus for it, if it added one.
    fn evaluate_input(&mut self, input: I) -> (res: Result<
        (bool, Option<Rc<Testcase<I>>>),
        AflError,
    >)
        ensures
            Self::evaluated(*old(self), input, *final(self), res),
    ;
}

} // verus!
