use vstd::prelude::*;
use std::rc::Rc;
use crate::corpus::{Corpus, Testcase};
use crate::engines::State;
use crate::error::AflError;
use crate::events::EventManager;
use crate::executors::Executor;
use crate::inputs::Input;
use crate::utils::Rand;

pub mod laws;
pub mod mutational;
pub mod protocol;

verus! {

/// One unit of fuzzing work on one testcase of the corpus.
///
/// The relation says what one call of `perform` may do. An implementation
/// that states nothing keeps it as it is, which allows everything; one that
/// is verified states its own, and its method is held to it.
pub trait Stage<S, EM, E, C, I, R>: Sized where
    S: State<C, E, I, R>,
    EM: EventManager<S, C, E, I, R>,
    E: Executor<I>,
    C: Corpus<I, R>,
    I: Input,
    R: Rand,
 {
    /// What one call of `perform` may do: `before` and `after` hold the
    /// stage, the random source, the state and the event manager as the call
    /// found and left them.
    open spec fn performed(
        before: (Self, R, S, EM),
        testcase: Rc<Testcase<I>>,
        after: (Self, R, S, EM),
        res: Result<(), AflError>,
    ) -> bool {
        true
    }

    /// Runs the stage on `testcase`. The first error ends the run; what the
    /// state and the event manager took in before it stays.
    fn perform(
        &mut self,
        rand: &mut R,
        state: &mut S,
        events: &mut EM,
        testcase: Rc<Testcase<I>>,
    ) -> (res: Result<(), AflError>)
        ensures
            Self::performed(
                (*old(self), *old(rand), *old(state), *old(events)),
                testcase,
                (*final(self), *final(rand), *final(state), *final(events)),
                res,
            ),
    ;
}

} // verus!
