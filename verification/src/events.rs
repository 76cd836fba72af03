use vstd::prelude::*;
use std::rc::Rc;
use crate::corpus::{Corpus, Testcase};
use crate::engines::State;
use crate::error::AflError;
use crate::executors::Executor;
use crate::inputs::Input;
use crate::utils::Rand;

verus! {

/// The news that a testcase has entered the corpus.
pub struct NewTestcaseEvent<I> {
    /// The testcase that the event is about.
    pub testcase: Rc<Testcase<I>>,
}

impl<I> NewTestcaseEvent<I> {
    /// The event for `testcase`.
    pub fn new(testcase: Rc<Testcase<I>>) -> (event: Self)
        ensures
            event.testcase == testcase,
    {
        NewTestcaseEvent { testcase }
    }

    /// The testcase that the event is about.
    pub fn testcase(&self) -> (testcase: &Rc<Testcase<I>>)
        ensures
            *testcase == self.testcase,
    {
        &self.testcase
    }
}

/// Carries events to the other instances of the fuzzer.
///
/// The relation says what one call may do. An implementation that states
/// nothing keeps it as it is, which allows everything; one that is verified
/// states its own, and its method is held to it.
pub trait EventManager<S, C, E, I, R>: Sized where
    S: State<C, E, I, R>,
    C: Corpus<I, R>,
    E: Executor<I>,
    I: Input,
    R: Rand,
 {
    /// What one call of `fire` may do to the event manager.
    open spec fn fired(
        before: Self,
        event: NewTestcaseEvent<I>,
        after: Self,
        res: Result<(), AflError>,
    ) -> bool {
        true
    }

    /// Publishes `event`.
    fn fire(&mut self, event: NewTestcaseEvent<I>) -> (res: Result<(), AflError>)
        ensures
            Self::fired(*old(self), event, *final(self), res),
    ;
}

} // verus!
