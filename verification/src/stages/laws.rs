use vstd::prelude::*;
use std::rc::Rc;
use crate::corpus::{Corpus, Testcase};
use crate::engines::State;
use crate::error::AflError;
use crate::events::{EventManager, NewTestcaseEvent};
use crate::executors::Executor;
use crate::inputs::Input;
use crate::mutators::Mutator;
use crate::stages::protocol::{
    completed, cycle, evaluate_phase, from_evaluation, from_notification, mutate_phase,
    mutational_run, notify_phase, publish_phase, ran, Snapshot,
};
use crate::utils::Rand;

verus! {

/// A run that has completed `n` cycles holds one cycle for every index below
/// `n`: cycle `i` starts where the first `i` cycles have led, runs to its end,
/// and leaves what the first `i + 1` cycles have led to. So the mutator is
/// called in as many cycles as the run has, with the indices in rising order.
pub proof fn law_completed_run_holds_every_cycle<T, M, S, EM, E, C, I, R>(
    lend: spec_fn(T, M, M, T) -> bool,
    start: Snapshot<T, R, S, EM>,
    stored: Option<I>,
    n: nat,
    end: Snapshot<T, R, S, EM>,
    i: nat,
) where
    M: Mutator<C, I, R>,
    S: State<C, E, I, R>,
    EM: EventManager<S, C, E, I, R>,
    E: Executor<I>,
    C: Corpus<I, R>,
    I: Input,
    R: Rand,
    requires
        completed::<T, M, S, EM, E, C, I, R>(lend, start, stored, n, end),
        i < n,
    ensures
        exists|from: Snapshot<T, R, S, EM>, to: Snapshot<T, R, S, EM>|
            {
                &&& completed::<T, M, S, EM, E, C, I, R>(lend, start, stored, i, from)
                &&& #[trigger] cycle::<T, M, S, EM, E, C, I, R>(
                    lend,
                    from,
                    stored,
                    i as usize,
                    to,
                    Ok(()),
                )
                &&& completed::<T, M, S, EM, E, C, I, R>(lend, start, stored, i + 1, to)
            },
    decreases n,
{
    let last = choose|last: Snapshot<T, R, S, EM>|
        {
            &&& completed::<T, M, S, EM, E, C, I, R>(lend, start, stored, (n - 1) as nat, last)
            &&& #[trigger] cycle::<T, M, S, EM, E, C, I, R>(
                lend,
                last,
                stored,
                (n - 1) as usize,
                end,
                Ok(()),
            )
        };
    if i + 1 == n {
        assert(cycle::<T, M, S, EM, E, C, I, R>(lend, last, stored, i as usize, end, Ok(())));
    } else {
        law_completed_run_holds_every_cycle::<T, M, S, EM, E, C, I, R>(
            lend,
            start,
            stored,
            (n - 1) as nat,
            last,
            i,
        );
    }
}

/// Within a cycle that ran to its end the steps stand in one order: the
/// mutator changes a duplicate of the stored input; the state evaluates what
/// the mutator made of it; the mutator hears the verdict of that evaluation;
/// and the testcase of that verdict is announced, if there is one. Each step
/// starts from what the step before it left.
pub proof fn law_cycle_steps_in_order<T, M, S, EM, E, C, I, R>(
    lend: spec_fn(T, M, M, T) -> bool,
    before: Snapshot<T, R, S, EM>,
    base: I,
    i: usize,
    after: Snapshot<T, R, S, EM>,
) where
    M: Mutator<C, I, R>,
    S: State<C, E, I, R>,
    EM: EventManager<S, C, E, I, R>,
    E: Executor<I>,
    C: Corpus<I, R>,
    I: Input,
    R: Rand,
    requires
        cycle::<T, M, S, EM, E, C, I, R>(lend, before, Some(base), i, after, Ok(())),
    ensures
        exists|
            fresh: I,
            mutated: I,
            changed: Snapshot<T, R, S, EM>,
            judged: Snapshot<T, R, S, EM>,
            told: Snapshot<T, R, S, EM>,
            found: (bool, Option<Rc<Testcase<I>>>),
        |
            {
                &&& cloned(base, fresh)
                &&& #[trigger] mutate_phase::<T, M, S, EM, E, C, I, R>(
                    lend,
                    before,
                    fresh,
                    i,
                    changed,
                    mutated,
                    Ok(()),
                )
                &&& #[trigger] evaluate_phase::<T, M, S, EM, E, C, I, R>(
                    changed,
                    mutated,
                    judged,
                    Ok(found),
                )
                &&& #[trigger] notify_phase::<T, M, S, EM, E, C, I, R>(
                    lend,
                    judged,
                    found.0,
                    found.1,
                    i,
                    told,
                    Ok(()),
                )
                &&& publish_phase::<T, M, S, EM, E, C, I, R>(told, found.1, after, Ok(()))
            },
{
    let (fresh, mutated, changed, answer) = choose|
        fresh: I,
        mutated: I,
        changed: Snapshot<T, R, S, EM>,
        answer: Result<(), AflError>,
    |
        {
            &&& cloned(base, fresh)
            &&& #[trigger] mutate_phase::<T, M, S, EM, E, C, I, R>(
                lend,
                before,
                fresh,
                i,
                changed,
                mutated,
                answer,
            )
            &&& match answer {
                Ok(_) => from_evaluation::<T, M, S, EM, E, C, I, R>(
                    lend,
                    changed,
                    mutated,
                    i,
                    after,
                    Ok(()),
                ),
                Err(e) => after == changed && Ok::<(), AflError>(()) == Err::<(), AflError>(e),
            }
        };
    assert(answer->Ok_0 == ());
    let (judged, verdict) = choose|
        judged: Snapshot<T, R, S, EM>,
        verdict: Result<(bool, Option<Rc<Testcase<I>>>), AflError>,
    |
        {
            &&& #[trigger] evaluate_phase::<T, M, S, EM, E, C, I, R>(
                changed,
                mutated,
                judged,
                verdict,
            )
            &&& match verdict {
                Ok(found) => from_notification::<T, M, S, EM, E, C, I, R>(
                    lend,
                    judged,
                    found.0,
                    found.1,
                    i,
                    after,
                    Ok(()),
                ),
                Err(e) => after == judged && Ok::<(), AflError>(()) == Err::<(), AflError>(e),
            }
        };
    let found = verdict->Ok_0;
    let (told, heard) = choose|told: Snapshot<T, R, S, EM>, heard: Result<(), AflError>|
        {
            &&& #[trigger] notify_phase::<T, M, S, EM, E, C, I, R>(
                lend,
                judged,
                found.0,
                found.1,
                i,
                told,
                heard,
            )
            &&& match heard {
                Ok(_) => publish_phase::<T, M, S, EM, E, C, I, R>(told, found.1, after, Ok(())),
                Err(e) => after == told && Ok::<(), AflError>(()) == Err::<(), AflError>(e),
            }
        };
    assert(heard->Ok_0 == ());
    assert(mutate_phase::<T, M, S, EM, E, C, I, R>(
        lend,
        before,
        fresh,
        i,
        changed,
        mutated,
        Ok(()),
    ));
    assert(evaluate_phase::<T, M, S, EM, E, C, I, R>(changed, mutated, judged, Ok(found)));
    assert(notify_phase::<T, M, S, EM, E, C, I, R>(
        lend,
        judged,
        found.0,
        found.1,
        i,
        told,
        Ok(()),
    ));
}

/// No cycle sees what an earlier one made of its duplicate: in a run that has
/// completed `n` cycles on a testcase that holds `base`, the mutator of every
/// cycle is handed a duplicate of `base` itself. The stage reads the testcase
/// and never writes to it.
pub proof fn law_every_cycle_starts_from_the_stored_input<T, M, S, EM, E, C, I, R>(
    lend: spec_fn(T, M, M, T) -> bool,
    start: Snapshot<T, R, S, EM>,
    base: I,
    n: nat,
    end: Snapshot<T, R, S, EM>,
    i: nat,
) where
    M: Mutator<C, I, R>,
    S: State<C, E, I, R>,
    EM: EventManager<S, C, E, I, R>,
    E: Executor<I>,
    C: Corpus<I, R>,
    I: Input,
    R: Rand,
    requires
        completed::<T, M, S, EM, E, C, I, R>(lend, start, Some(base), n, end),
        i < n,
    ensures
        exists|
            from: Snapshot<T, R, S, EM>,
            fresh: I,
            changed: Snapshot<T, R, S, EM>,
            mutated: I,
        |
            {
                &&& completed::<T, M, S, EM, E, C, I, R>(lend, start, Some(base), i, from)
                &&& cloned(base, fresh)
                &&& #[trigger] mutate_phase::<T, M, S, EM, E, C, I, R>(
                    lend,
                    from,
                    fresh,
                    i as usize,
                    changed,
                    mutated,
                    Ok(()),
                )
            },
{
    law_completed_run_holds_every_cycle::<T, M, S, EM, E, C, I, R>(
        lend,
        start,
        Some(base),
        n,
        end,
        i,
    );
    let (from, to) = choose|from: Snapshot<T, R, S, EM>, to: Snapshot<T, R, S, EM>|
        {
            &&& completed::<T, M, S, EM, E, C, I, R>(lend, start, Some(base), i, from)
            &&& #[trigger] cycle::<T, M, S, EM, E, C, I, R>(
                lend,
                from,
                Some(base),
                i as usize,
                to,
                Ok(()),
            )
            &&& completed::<T, M, S, EM, E, C, I, R>(lend, start, Some(base), i + 1, to)
        };
    law_cycle_steps_in_order::<T, M, S, EM, E, C, I, R>(lend, from, base, i as usize, to);
}

/// An event is fired for a new testcase and for nothing else. Taken from the
/// moment the state has given its verdict, and for a verdict that holds a
/// testcase only where it says interesting: without a testcase, and so with
/// every verdict that says not interesting, the event manager stays as it is;
/// with one, a cycle that ran to its end has fired one event, which carries
/// that testcase.
pub proof fn law_event_only_for_new_testcase<T, M, S, EM, E, C, I, R>(
    lend: spec_fn(T, M, M, T) -> bool,
    judged: Snapshot<T, R, S, EM>,
    is_interesting: bool,
    new_testcase: Option<Rc<Testcase<I>>>,
    i: usize,
    after: Snapshot<T, R, S, EM>,
    res: Result<(), AflError>,
) where
    M: Mutator<C, I, R>,
    S: State<C, E, I, R>,
    EM: EventManager<S, C, E, I, R>,
    E: Executor<I>,
    C: Corpus<I, R>,
    I: Input,
    R: Rand,
    requires
        from_notification::<T, M, S, EM, E, C, I, R>(
            lend,
            judged,
            is_interesting,
            new_testcase,
            i,
            after,
            res,
        ),
        is_interesting || new_testcase is None,
    ensures
        !is_interesting || new_testcase is None ==> after.events == judged.events,
        res is Ok ==> match new_testcase {
            Some(testcase) => EM::fired(
                judged.events,
                NewTestcaseEvent { testcase },
                after.events,
                res,
            ),
            None => true,
        },
{
}

/// A cycle on a testcase without an input in memory fails with `InputLoad`
/// and touches nothing: the mutator is not called, nothing is evaluated, and
/// no event is fired.
pub proof fn law_missing_input_fails_cycle<T, M, S, EM, E, C, I, R>(
    lend: spec_fn(T, M, M, T) -> bool,
    before: Snapshot<T, R, S, EM>,
    i: usize,
    after: Snapshot<T, R, S, EM>,
    res: Result<(), AflError>,
) where
    M: Mutator<C, I, R>,
    S: State<C, E, I, R>,
    EM: EventManager<S, C, E, I, R>,
    E: Executor<I>,
    C: Corpus<I, R>,
    I: Input,
    R: Rand,
    requires
        cycle::<T, M, S, EM, E, C, I, R>(lend, before, None::<I>, i, after, res),
    ensures
        res == Err::<(), AflError>(AflError::InputLoad),
        after == before,
{
}

/// A run of at least one cycle on a testcase without an input in memory
/// fails with `InputLoad` in its first cycle and touches nothing.
pub proof fn law_missing_input_stops_run<T, M, S, EM, E, C, I, R>(
    lend: spec_fn(T, M, M, T) -> bool,
    start: Snapshot<T, R, S, EM>,
    num: usize,
    end: Snapshot<T, R, S, EM>,
    res: Result<(), AflError>,
) where
    M: Mutator<C, I, R>,
    S: State<C, E, I, R>,
    EM: EventManager<S, C, E, I, R>,
    E: Executor<I>,
    C: Corpus<I, R>,
    I: Input,
    R: Rand,
    requires
        ran::<T, M, S, EM, E, C, I, R>(lend, start, None::<I>, num, end, res),
        1 <= num,
    ensures
        res == Err::<(), AflError>(AflError::InputLoad),
        end == start,
{
    match res {
        Ok(_) => {
            // a completed run of one cycle or more holds a cycle that ran to its end
            law_completed_run_holds_every_cycle::<T, M, S, EM, E, C, I, R>(
                lend,
                start,
                None::<I>,
                num as nat,
                end,
                0,
            );
        },
        Err(e) => {
            let (k, failing) = choose|k: usize, failing: Snapshot<T, R, S, EM>|
                {
                    &&& k < num
                    &&& completed::<T, M, S, EM, E, C, I, R>(
                        lend,
                        start,
                        None::<I>,
                        k as nat,
                        failing,
                    )
                    &&& #[trigger] cycle::<T, M, S, EM, E, C, I, R>(
                        lend,
                        failing,
                        None::<I>,
                        k,
                        end,
                        Err(e),
                    )
                };
            if k > 0 {
                law_completed_run_holds_every_cycle::<T, M, S, EM, E, C, I, R>(
                    lend,
                    start,
                    None::<I>,
                    k as nat,
                    failing,
                    0,
                );
            }
        },
    }
}

/// A run of a mutational stage on a testcase without an input in memory
/// fails with `InputLoad`, and leaves the state and the event manager as
/// they were.
pub proof fn law_missing_input_stops_stage<T, M, S, EM, E, C, I, R>(
    lend: spec_fn(T, M, M, T) -> bool,
    settle: spec_fn(T, R, T, R, usize) -> bool,
    before: Snapshot<T, R, S, EM>,
    after: Snapshot<T, R, S, EM>,
    res: Result<(), AflError>,
) where
    M: Mutator<C, I, R>,
    S: State<C, E, I, R>,
    EM: EventManager<S, C, E, I, R>,
    E: Executor<I>,
    C: Corpus<I, R>,
    I: Input,
    R: Rand,
    requires
        mutational_run::<T, M, S, EM, E, C, I, R>(lend, settle, before, None::<I>, after, res),
    ensures
        res == Err::<(), AflError>(AflError::InputLoad),
        after.state == before.state,
        after.events == before.events,
{
    let (num, start) = choose|num: usize, start: Snapshot<T, R, S, EM>|
        {
            &&& 1 <= num
            &&& settle(before.stage, before.rand, start.stage, start.rand, num)
            &&& start.state == before.state
            &&& start.events == before.events
            &&& #[trigger] ran::<T, M, S, EM, E, C, I, R>(lend, start, None::<I>, num, after, res)
        };
    law_missing_input_stops_run::<T, M, S, EM, E, C, I, R>(lend, start, num, after, res);
}

} // verus!
