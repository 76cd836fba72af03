use vstd::prelude::*;
use std::rc::Rc;
use crate::corpus::{Corpus, Testcase};
use crate::engines::State;
use crate::error::AflError;
use crate::events::{EventManager, NewTestcaseEvent};
use crate::executors::Executor;
use crate::inputs::Input;
use crate::mutators::Mutator;
use crate::utils::Rand;

verus! {

/// The four things that a run of a stage can change, at one moment.
pub struct Snapshot<T, R, S, EM> {
    pub stage: T,
    pub rand: R,
    pub state: S,
    pub events: EM,
}

/// The snapshot of `stage`, `rand`, `state` and `events`.
pub open spec fn snapshot<T, R, S, EM>(stage: T, rand: R, state: S, events: EM) -> Snapshot<
    T,
    R,
    S,
    EM,
> {
    Snapshot { stage, rand, state, events }
}

/// The mutator changes an input in cycle `i`: the stage lends its mutator,
/// the state lends its corpus, and `mutate` runs on the two, on the random
/// source and on `input`, which it leaves as `mutated`. The event manager is
/// not touched.
pub open spec fn mutate_phase<T, M, S, EM, E, C, I, R>(
    lend: spec_fn(T, M, M, T) -> bool,
    before: Snapshot<T, R, S, EM>,
    input: I,
    i: usize,
    after: Snapshot<T, R, S, EM>,
    mutated: I,
    res: Result<(), AflError>,
) -> bool where
    M: Mutator<C, I, R>,
    S: State<C, E, I, R>,
    EM: EventManager<S, C, E, I, R>,
    E: Executor<I>,
    C: Corpus<I, R>,
    I: Input,
    R: Rand,
 {
    &&& after.events == before.events
    &&& exists|lent: M, returned: M, corpus: C, corpus_after: C|
        {
            &&& lend(before.stage, lent, returned, after.stage)
            &&& S::corpus_lent(before.state, corpus, corpus_after, after.state)
            &&& #[trigger] M::mutated(
                (lent, before.rand, corpus, input),
                i as i32,
                (returned, after.rand, corpus_after, mutated),
                res,
            )
        }
}

/// The state runs and judges `input`. Nothing but the state is touched.
pub open spec fn evaluate_phase<T, M, S, EM, E, C, I, R>(
    before: Snapshot<T, R, S, EM>,
    input: I,
    after: Snapshot<T, R, S, EM>,
    verdict: Result<(bool, Option<Rc<Testcase<I>>>), AflError>,
) -> bool where
    M: Mutator<C, I, R>,
    S: State<C, E, I, R>,
    EM: EventManager<S, C, E, I, R>,
    E: Executor<I>,
    C: Corpus<I, R>,
    I: Input,
    R: Rand,
 {
    &&& after.stage == before.stage
    &&& after.rand == before.rand
    &&& after.events == before.events
    &&& S::evaluated(before.state, input, after.state, verdict)
}

/// The mutator is told the verdict on the input of cycle `i`: the stage lends
/// its mutator, and `post_exec` runs on it. Nothing but the stage is touched.
pub open spec fn notify_phase<T, M, S, EM, E, C, I, R>(
    lend: spec_fn(T, M, M, T) -> bool,
    before: Snapshot<T, R, S, EM>,
    is_interesting: bool,
    new_testcase: Option<Rc<Testcase<I>>>,
    i: usize,
    after: Snapshot<T, R, S, EM>,
    res: Result<(), AflError>,
) -> bool where
    M: Mutator<C, I, R>,
    S: State<C, E, I, R>,
    EM: EventManager<S, C, E, I, R>,
    E: Executor<I>,
    C: Corpus<I, R>,
    I: Input,
    R: Rand,
 {
    &&& after.rand == before.rand
    &&& after.state == before.state
    &&& after.events == before.events
    &&& exists|lent: M, returned: M|
        {
            &&& lend(before.stage, lent, returned, after.stage)
            &&& #[trigger] M::notified(lent, is_interesting, new_testcase, i as i32, returned, res)
        }
}

/// The new testcase is announced, if there is one: with a testcase, one event
/// that carries it is fired; without, nothing is touched and nothing fails.
pub open spec fn publish_phase<T, M, S, EM, E, C, I, R>(
    before: Snapshot<T, R, S, EM>,
    new_testcase: Option<Rc<Testcase<I>>>,
    after: Snapshot<T, R, S, EM>,
    res: Result<(), AflError>,
) -> bool where
    M: Mutator<C, I, R>,
    S: State<C, E, I, R>,
    EM: EventManager<S, C, E, I, R>,
    E: Executor<I>,
    C: Corpus<I, R>,
    I: Input,
    R: Rand,
 {
    &&& after.stage == before.stage
    &&& after.rand == before.rand
    &&& after.state == before.state
    &&& match new_testcase {
        Some(testcase) => EM::fired(
            before.events,
            NewTestcaseEvent { testcase },
            after.events,
            res,
        ),
        None => after.events == before.events && res == Ok::<(), AflError>(()),
    }
}

/// Cycle `i` from the notification on: the mutator hears the verdict, then
/// the new testcase is announced, and the cycle ends as the announcement does.
/// Where the mutator fails, the cycle ends with its error and nothing is
/// announced.
pub open spec fn from_notification<T, M, S, EM, E, C, I, R>(
    lend: spec_fn(T, M, M, T) -> bool,
    before: Snapshot<T, R, S, EM>,
    is_interesting: bool,
    new_testcase: Option<Rc<Testcase<I>>>,
    i: usize,
    after: Snapshot<T, R, S, EM>,
    res: Result<(), AflError>,
) -> bool where
    M: Mutator<C, I, R>,
    S: State<C, E, I, R>,
    EM: EventManager<S, C, E, I, R>,
    E: Executor<I>,
    C: Corpus<I, R>,
    I: Input,
    R: Rand,
 {
    exists|told: Snapshot<T, R, S, EM>, answer: Result<(), AflError>|
        {
            &&& #[trigger] notify_phase::<T, M, S, EM, E, C, I, R>(
                lend,
                before,
                is_interesting,
                new_testcase,
                i,
                told,
                answer,
            )
            &&& match answer {
                Ok(_) => publish_phase::<T, M, S, EM, E, C, I, R>(told, new_testcase, after, res),
                Err(e) => after == told && res == Err::<(), AflError>(e),
            }
        }
}

/// Cycle `i` from the evaluation on: the state evaluates `input`, and the
/// cycle goes on with its verdict. Where the state fails, the cycle ends with
/// its error and the mutator hears nothing.
pub open spec fn from_evaluation<T, M, S, EM, E, C, I, R>(
    lend: spec_fn(T, M, M, T) -> bool,
    before: Snapshot<T, R, S, EM>,
    input: I,
    i: usize,
    after: Snapshot<T, R, S, EM>,
    res: Result<(), AflError>,
) -> bool where
    M: Mutator<C, I, R>,
    S: State<C, E, I, R>,
    EM: EventManager<S, C, E, I, R>,
    E: Executor<I>,
    C: Corpus<I, R>,
    I: Input,
    R: Rand,
 {
    exists|
        judged: Snapshot<T, R, S, EM>,
        verdict: Result<(bool, Option<Rc<Testcase<I>>>), AflError>,
    |
        {
            &&& #[trigger] evaluate_phase::<T, M, S, EM, E, C, I, R>(before, input, judged, verdict)
            &&& match verdict {
                Ok(found) => from_notification::<T, M, S, EM, E, C, I, R>(
                    lend,
                    judged,
                    found.0,
                    found.1,
                    i,
                    after,
                    res,
                ),
                Err(e) => after == judged && res == Err::<(), AflError>(e),
            }
        }
}

/// Cycle `i` of a run on a testcase that holds `stored`.
///
/// Without an input in memory the cycle fails with `InputLoad` and touches
/// nothing. With one, the mutator changes a duplicate of it, and the cycle
/// goes on with the evaluation of the duplicate; where the mutator fails, the
/// cycle ends with its error and nothing is evaluated. The stored input is
/// the same in every cycle: no cycle sees what another made of its duplicate.
pub open spec fn cycle<T, M, S, EM, E, C, I, R>(
    lend: spec_fn(T, M, M, T) -> bool,
    before: Snapshot<T, R, S, EM>,
    stored: Option<I>,
    i: usize,
    after: Snapshot<T, R, S, EM>,
    res: Result<(), AflError>,
) -> bool where
    M: Mutator<C, I, R>,
    S: State<C, E, I, R>,
    EM: EventManager<S, C, E, I, R>,
    E: Executor<I>,
    C: Corpus<I, R>,
    I: Input,
    R: Rand,
 {
    match stored {
        None => after == before && res == Err::<(), AflError>(AflError::InputLoad),
        Some(base) => exists|
            fresh: I,
            mutated: I,
            changed: Snapshot<T, R, S, EM>,
            answer: Result<(), AflError>,
        |
            {
                &&& cloned(base, fresh)
                &&& #[trigger] mutate_phase::<T, M, S, EM, E, C, I, R>(
                    lend,
                    before,
                    fresh,
                    i,
                    changed,
                    mutated,
                    answer,
                )
                &&& match answer {
                    Ok(_) => from_evaluation::<T, M, S, EM, E, C, I, R>(
                        lend,
                        changed,
                        mutated,
                        i,
                        after,
                        res,
                    ),
                    Err(e) => after == changed && res == Err::<(), AflError>(e),
                }
            },
    }
}

/// The cycles `0` to `k - 1` have run on a testcase that holds `stored`, in
/// this order and each to its end, and have led from `start` to `end`.
pub open spec fn completed<T, M, S, EM, E, C, I, R>(
    lend: spec_fn(T, M, M, T) -> bool,
    start: Snapshot<T, R, S, EM>,
    stored: Option<I>,
    k: nat,
    end: Snapshot<T, R, S, EM>,
) -> bool where
    M: Mutator<C, I, R>,
    S: State<C, E, I, R>,
    EM: EventManager<S, C, E, I, R>,
    E: Executor<I>,
    C: Corpus<I, R>,
    I: Input,
    R: Rand,
    decreases k,
{
    if k == 0 {
        end == start
    } else {
        exists|last: Snapshot<T, R, S, EM>|
            {
                &&& completed::<T, M, S, EM, E, C, I, R>(lend, start, stored, (k - 1) as nat, last)
                &&& #[trigger] cycle::<T, M, S, EM, E, C, I, R>(
                    lend,
                    last,
                    stored,
                    (k - 1) as usize,
                    end,
                    Ok(()),
                )
            }
    }
}

/// A run of `num` cycles on a testcase that holds `stored`.
///
/// The run succeeds where all `num` cycles have run to their end. It fails
/// with the error of the first cycle that fails: the cycles before it have
/// run to their end, what they changed stays, and no cycle runs after it.
pub open spec fn ran<T, M, S, EM, E, C, I, R>(
    lend: spec_fn(T, M, M, T) -> bool,
    start: Snapshot<T, R, S, EM>,
    stored: Option<I>,
    num: usize,
    end: Snapshot<T, R, S, EM>,
    res: Result<(), AflError>,
) -> bool where
    M: Mutator<C, I, R>,
    S: State<C, E, I, R>,
    EM: EventManager<S, C, E, I, R>,
    E: Executor<I>,
    C: Corpus<I, R>,
    I: Input,
    R: Rand,
 {
    match res {
        Ok(_) => completed::<T, M, S, EM, E, C, I, R>(lend, start, stored, num as nat, end),
        Err(e) => exists|k: usize, failing: Snapshot<T, R, S, EM>|
            {
                &&& k < num
                &&& completed::<T, M, S, EM, E, C, I, R>(lend, start, stored, k as nat, failing)
                &&& #[trigger] cycle::<T, M, S, EM, E, C, I, R>(
                    lend,
                    failing,
                    stored,
                    k,
                    end,
                    Err(e),
                )
            },
    }
}

/// The default policy for the number of cycles: one more than a number below
/// 128, drawn from the random source. The stage stays as it is.
pub open spec fn default_policy<T, R: Rand>(
    before: T,
    rand_before: R,
    after: T,
    rand_after: R,
    num: usize,
) -> bool {
    &&& after == before
    &&& exists|roll: u64|
        {
            &&& #[trigger] R::drawn(rand_before, 128, rand_after, roll)
            &&& roll < 128
            &&& num == 1 + roll
        }
}

/// A run of a mutational stage on a testcase that holds `stored`.
///
/// The stage first settles the number of cycles, as `settle` says: it is at
/// least one, and settling it may change the stage and the random source, but
/// neither the state nor the event manager. Then that many cycles run.
pub open spec fn mutational_run<T, M, S, EM, E, C, I, R>(
    lend: spec_fn(T, M, M, T) -> bool,
    settle: spec_fn(T, R, T, R, usize) -> bool,
    before: Snapshot<T, R, S, EM>,
    stored: Option<I>,
    after: Snapshot<T, R, S, EM>,
    res: Result<(), AflError>,
) -> bool where
    M: Mutator<C, I, R>,
    S: State<C, E, I, R>,
    EM: EventManager<S, C, E, I, R>,
    E: Executor<I>,
    C: Corpus<I, R>,
    I: Input,
    R: Rand,
 {
    exists|num: usize, start: Snapshot<T, R, S, EM>|
        {
            &&& 1 <= num
            &&& settle(before.stage, before.rand, start.stage, start.rand, num)
            &&& start.state == before.state
            &&& start.events == before.events
            &&& #[trigger] ran::<T, M, S, EM, E, C, I, R>(lend, start, stored, num, after, res)
        }
}

} // verus!
