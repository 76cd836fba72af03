use vstd::prelude::*;
use std::marker::PhantomData;
use std::rc::Rc;
use crate::corpus::{Corpus, Testcase};
use crate::engines::State;
use crate::error::AflError;
use crate::events::{EventManager, NewTestcaseEvent};
use crate::executors::Executor;
use crate::inputs::Input;
use crate::mutators::Mutator;
use crate::stages::protocol::{
    completed, cycle, default_policy, evaluate_phase, mutate_phase, mutational_run, notify_phase,
    ran, snapshot,
};
use crate::stages::Stage;
use crate::utils::Rand;

verus! {

/// The number of cycles that the default policy makes of one roll of the
/// random source.
pub fn iterations_of_roll(roll: u64) -> (num: usize)
    requires
        roll < usize::MAX,
    ensures
        num == 1 + roll,
{
    1 + roll as usize
}

/// The number of cycle `i` as the mutator is handed it.
pub fn stage_index(i: usize) -> (stage_idx: i32)
    ensures
        stage_idx == i as i32,
        i <= i32::MAX ==> stage_idx == i,
{
    #[verifier::truncate]
    (i as i32)
}

/// A duplicate of the input of `testcase`, for the mutator to change, or
/// `InputLoad` where the testcase holds no input in memory.
pub fn fresh_input<I: Input>(testcase: &Testcase<I>) -> (fresh: Result<I, AflError>)
    ensures
        match testcase.stored() {
            Some(base) => fresh is Ok && cloned(base, fresh->Ok_0),
            None => fresh == Err::<I, AflError>(AflError::InputLoad),
        },
{
    match testcase.load_input() {
        Ok(input) => Ok(input.clone()),
        Err(e) => Err(e),
    }
}

/// Announces the testcase that an evaluation has added to the corpus, if it
/// added one: one event with a testcase, none without.
pub fn announce<S, EM, E, C, I, R>(
    events: &mut EM,
    new_testcase: Option<Rc<Testcase<I>>>,
) -> (res: Result<(), AflError>) where
    S: State<C, E, I, R>,
    EM: EventManager<S, C, E, I, R>,
    E: Executor<I>,
    C: Corpus<I, R>,
    I: Input,
    R: Rand,
    ensures
        match new_testcase {
            Some(testcase) => EM::fired(
                *old(events),
                NewTestcaseEvent { testcase },
                *final(events),
                res,
            ),
            None => *final(events) == *old(events) && res == Ok::<(), AflError>(()),
        },
{
    match new_testcase {
        Some(testcase) => events.fire(NewTestcaseEvent::new(testcase)),
        None => Ok(()),
    }
}

/// A stage that mutates the input of a testcase a number of times and has
/// each outcome evaluated.
///
/// The relations say what the accessors of the mutator and a policy for the
/// number of cycles may do. An implementation that states nothing keeps them
/// as they are, which allows everything; one that is verified states its own,
/// and its methods are held to them.
pub trait MutationalStage<M, S, EM, E, C, I, R>: Sized where
    M: Mutator<C, I, R>,
    S: State<C, E, I, R>,
    EM: EventManager<S, C, E, I, R>,
    E: Executor<I>,
    C: Corpus<I, R>,
    I: Input,
    R: Rand,
 {
    /// What `mutator` may hand out.
    open spec fn mutator_shown(stage: Self, mutator: M) -> bool {
        true
    }

    /// The mutator of this stage.
    fn mutator(&self) -> (mutator: &M)
        ensures
            Self::mutator_shown(*self, *mutator),
    ;

    /// What lending the mutator out may do: the stage `before` hands out the
    /// mutator `lent`, and is the stage `after` once the borrower has left
    /// the mutator as `returned`.
    open spec fn mutator_lent(before: Self, lent: M, returned: M, after: Self) -> bool {
        true
    }

    /// The mutator of this stage, for a borrower to use and change.
    fn mutator_mut(&mut self) -> (mutator: &mut M)
        ensures
            Self::mutator_lent(*old(self), *mutator, *final(mutator), *final(self)),
    ;

    /// What a policy of the stage's own may do when it settles the number of
    /// cycles. A stage that keeps the default policy, and wants its callers
    /// to know, says `false` here.
    open spec fn own_policy(
        before: Self,
        rand_before: R,
        after: Self,
        rand_after: R,
        num: usize,
    ) -> bool {
        true
    }

    /// The number of cycles to run on the next testcase: at least one.
    ///
    /// Unless a stage brings its own policy, the number is one more than a
    /// number below 128, drawn from `rand` anew at every call, and the stage
    /// stays as it is.
    fn iterations(&mut self, rand: &mut R) -> (num: usize)
        ensures
            1 <= num,
            default_policy(*old(self), *old(rand), *final(self), *final(rand), num)
                || Self::own_policy(*old(self), *old(rand), *final(self), *final(rand), num),
    {
        let roll = rand.below(128);
        iterations_of_roll(roll)
    }

    /// Runs this stage on `testcase`: settles the number of cycles, then
    /// runs them. The first cycle that fails ends the run, and its error is
    /// the run's; what the cycles before it changed stays.
    fn perform_mutational(
        &mut self,
        rand: &mut R,
        state: &mut S,
        events: &mut EM,
        testcase: Rc<Testcase<I>>,
    ) -> (res: Result<(), AflError>)
        ensures
            mutational_run::<Self, M, S, EM, E, C, I, R>(
                |before: Self, lent: M, returned: M, after: Self|
                    Self::mutator_lent(before, lent, returned, after),
                |before: Self, rand_before: R, after: Self, rand_after: R, num: usize|
                    default_policy(before, rand_before, after, rand_after, num)
                        || Self::own_policy(before, rand_before, after, rand_after, num),
                snapshot(*old(self), *old(rand), *old(state), *old(events)),
                testcase.stored(),
                snapshot(*final(self), *final(rand), *final(state), *final(events)),
                res,
            ),
    {
        let ghost lend = |before: Self, lent: M, returned: M, after: Self|
            Self::mutator_lent(before, lent, returned, after);
        let ghost stored = testcase.stored();
        let num = self.iterations(rand);
        let ghost start = snapshot(*self, *rand, *state, *events);
        let mut i: usize = 0;
        #[verifier::loop_isolation(false)]
        while i < num
            invariant
                i <= num,
                completed::<Self, M, S, EM, E, C, I, R>(
                    lend,
                    start,
                    stored,
                    i as nat,
                    snapshot(*self, *rand, *state, *events),
                ),
            decreases num - i,
        {
            let ghost last = snapshot(*self, *rand, *state, *events);
            let mut input = match fresh_input(&testcase) {
                Ok(input) => input,
                Err(e) => {
                    assert(cycle::<Self, M, S, EM, E, C, I, R>(
                        lend,
                        last,
                        stored,
                        i,
                        last,
                        Err(e),
                    ));
                    assert(ran::<Self, M, S, EM, E, C, I, R>(
                        lend,
                        start,
                        stored,
                        num,
                        last,
                        Err(e),
                    ));
                    return Err(e);
                },
            };
            let ghost fresh = input;
            let stage_idx = stage_index(i);
            let answer = self.mutator_mut().mutate(rand, state.corpus_mut(), &mut input, stage_idx);
            let ghost changed = snapshot(*self, *rand, *state, *events);
            let ghost mutated = input;
            assert(mutate_phase::<Self, M, S, EM, E, C, I, R>(
                lend,
                last,
                fresh,
                i,
                changed,
                mutated,
                answer,
            ));
            if let Err(e) = answer {
                assert(cycle::<Self, M, S, EM, E, C, I, R>(lend, last, stored, i, changed, Err(e)));
                assert(ran::<Self, M, S, EM, E, C, I, R>(
                    lend,
                    start,
                    stored,
                    num,
                    changed,
                    Err(e),
                ));
                return Err(e);
            }
            let verdict = state.evaluate_input(input);
            let ghost judged = snapshot(*self, *rand, *state, *events);
            assert(evaluate_phase::<Self, M, S, EM, E, C, I, R>(changed, mutated, judged, verdict));
            let (is_interesting, new_testcase) = match verdict {
                Ok(found) => found,
                Err(e) => {
                    assert(cycle::<Self, M, S, EM, E, C, I, R>(
                        lend,
                        last,
                        stored,
                        i,
                        judged,
                        Err(e),
                    ));
                    assert(ran::<Self, M, S, EM, E, C, I, R>(
                        lend,
                        start,
                        stored,
                        num,
                        judged,
                        Err(e),
                    ));
                    return Err(e);
                },
            };
            let shared = match &new_testcase {
                Some(testcase) => Some(testcase.clone()),
                None => None,
            };
            let answer = self.mutator_mut().post_exec(is_interesting, shared, stage_idx);
            let ghost told = snapshot(*self, *rand, *state, *events);
            assert(notify_phase::<Self, M, S, EM, E, C, I, R>(
                lend,
                judged,
                is_interesting,
                new_testcase,
                i,
                told,
                answer,
            ));
            if let Err(e) = answer {
                assert(cycle::<Self, M, S, EM, E, C, I, R>(lend, last, stored, i, told, Err(e)));
                assert(ran::<Self, M, S, EM, E, C, I, R>(lend, start, stored, num, told, Err(e)));
                return Err(e);
            }
            let published = announce(events, new_testcase);
            let ghost next = snapshot(*self, *rand, *state, *events);
            assert(cycle::<Self, M, S, EM, E, C, I, R>(lend, last, stored, i, next, published));
            if let Err(e) = published {
                assert(ran::<Self, M, S, EM, E, C, I, R>(lend, start, stored, num, next, Err(e)));
                return Err(e);
            }
            proof {
                let k = (i + 1) as nat;
                assert(published->Ok_0 == ());
                assert((k - 1) as usize == i);
                assert(completed::<Self, M, S, EM, E, C, I, R>(lend, start, stored, k, next));
            }
            i = i + 1;
        }
        assert(ran::<Self, M, S, EM, E, C, I, R>(
            lend,
            start,
            stored,
            num,
            snapshot(*self, *rand, *state, *events),
            Ok(()),
        ));
        Ok(())
    }
}

/// The default mutational stage: it owns one mutator and nothing else, and
/// keeps the default policy for the number of cycles.
pub struct StdMutationalStage<M, S, EM, E, C, I, R> where
    M: Mutator<C, I, R>,
    S: State<C, E, I, R>,
    EM: EventManager<S, C, E, I, R>,
    E: Executor<I>,
    C: Corpus<I, R>,
    I: Input,
    R: Rand,
 {
    mutator: M,
    phantom: PhantomData<(S, EM, E, C, I, R)>,
}

impl<M, S, EM, E, C, I, R> StdMutationalStage<M, S, EM, E, C, I, R> where
    M: Mutator<C, I, R>,
    S: State<C, E, I, R>,
    EM: EventManager<S, C, E, I, R>,
    E: Executor<I>,
    C: Corpus<I, R>,
    I: Input,
    R: Rand,
 {
    /// The mutator that the stage owns.
    pub closed spec fn owned(&self) -> M {
        self.mutator
    }

    /// Creates a new default mutational stage, which owns `mutator`.
    pub fn new(mutator: M) -> (stage: Self)
        ensures
            stage.owned() == mutator,
    {
        StdMutationalStage { mutator: mutator, phantom: PhantomData }
    }
}

impl<M, S, EM, E, C, I, R> MutationalStage<M, S, EM, E, C, I, R> for StdMutationalStage<
    M,
    S,
    EM,
    E,
    C,
    I,
    R,
> where
    M: Mutator<C, I, R>,
    S: State<C, E, I, R>,
    EM: EventManager<S, C, E, I, R>,
    E: Executor<I>,
    C: Corpus<I, R>,
    I: Input,
    R: Rand,
 {
    /// The mutator handed out is the one that the stage owns.
    open spec fn mutator_shown(stage: Self, mutator: M) -> bool {
        mutator == stage.owned()
    }

    fn mutator(&self) -> (mutator: &M) {
        proof {
            assert(self.mutator == self.owned());
        }
        &self.mutator
    }

    /// The mutator lent is the one that the stage owns, and the stage then
    /// owns it as the borrower left it.
    open spec fn mutator_lent(before: Self, lent: M, returned: M, after: Self) -> bool {
        lent == before.owned() && after.owned() == returned
    }

    /// The default stage keeps the default policy.
    open spec fn own_policy(
        before: Self,
        rand_before: R,
        after: Self,
        rand_after: R,
        num: usize,
    ) -> bool {
        false
    }

    fn mutator_mut(&mut self) -> (mutator: &mut M) {
        let mutator = &mut self.mutator;
        proof {
            assert(*mutator == old(self).owned());
        }
        mutator
    }
}

impl<M, S, EM, E, C, I, R> Stage<S, EM, E, C, I, R> for StdMutationalStage<
    M,
    S,
    EM,
    E,
    C,
    I,
    R,
> where
    M: Mutator<C, I, R>,
    S: State<C, E, I, R>,
    EM: EventManager<S, C, E, I, R>,
    E: Executor<I>,
    C: Corpus<I, R>,
    I: Input,
    R: Rand,
 {
    /// One call of `perform` is one run of the mutational stage.
    open spec fn performed(
        before: (Self, R, S, EM),
        testcase: Rc<Testcase<I>>,
        after: (Self, R, S, EM),
        res: Result<(), AflError>,
    ) -> bool {
        mutational_run::<Self, M, S, EM, E, C, I, R>(
            lending::<Self, M, S, EM, E, C, I, R>(),
            settling::<Self, M, S, EM, E, C, I, R>(),
            snapshot(before.0, before.1, before.2, before.3),
            testcase.stored(),
            snapshot(after.0, after.1, after.2, after.3),
            res,
        )
    }

    fn perform(
        &mut self,
        rand: &mut R,
        state: &mut S,
        events: &mut EM,
        testcase: Rc<Testcase<I>>,
    ) -> (res: Result<(), AflError>) {
        self.perform_mutational(rand, state, events, testcase)
    }
}

/// How a stage of type `T` lends its mutator out, as a relation that the
/// description of a run can take.
pub open spec fn lending<T, M, S, EM, E, C, I, R>() -> spec_fn(T, M, M, T) -> bool where
    T: MutationalStage<M, S, EM, E, C, I, R>,
    M: Mutator<C, I, R>,
    S: State<C, E, I, R>,
    EM: EventManager<S, C, E, I, R>,
    E: Executor<I>,
    C: Corpus<I, R>,
    I: Input,
    R: Rand,
 {
    |before: T, lent: M, returned: M, after: T| T::mutator_lent(before, lent, returned, after)
}

/// How a stage of type `T` settles the number of cycles, as a relation that
/// the description of a run can take: by the default policy, or by a policy
/// of its own.
pub open spec fn settling<T, M, S, EM, E, C, I, R>() -> spec_fn(T, R, T, R, usize) -> bool where
    T: MutationalStage<M, S, EM, E, C, I, R>,
    M: Mutator<C, I, R>,
    S: State<C, E, I, R>,
    EM: EventManager<S, C, E, I, R>,
    E: Executor<I>,
    C: Corpus<I, R>,
    I: Input,
    R: Rand,
 {
    |before: T, rand_before: R, after: T, rand_after: R, num: usize|
        default_policy(before, rand_before, after, rand_after, num) || T::own_policy(
            before,
            rand_before,
            after,
            rand_after,
            num,
        )
}

} // verus!
