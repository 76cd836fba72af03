use afl::corpus::{Corpus, Testcase};
use afl::engines::State;
use afl::events::{EventManager, NewTestcaseEvent};
use afl::executors::Executor;
use afl::inputs::Input;
use afl::mutators::Mutator;
use afl::stages::mutational::{MutationalStage, StdMutationalStage};
use afl::stages::Stage;
use afl::utils::Rand;
use afl::AflError;
use std::cell::RefCell;
use std::rc::Rc;

#[derive(Clone, Debug, PartialEq)]
struct Bytes(Vec<u8>);

impl Input for Bytes {}

fn text(input: &Bytes) -> String {
    input.0.iter().map(|byte| *byte as char).collect()
}

type Log = Rc<RefCell<Vec<String>>>;

fn new_log() -> Log {
    Rc::new(RefCell::new(Vec::new()))
}

fn lines(log: &Log) -> Vec<String> {
    log.borrow().clone()
}

/// Hands out the rolls it was made with, one after the other, and keeps the
/// bounds it was asked for.
struct ScriptedRand {
    rolls: Vec<u64>,
    next: usize,
    bounds: Vec<u64>,
}

impl ScriptedRand {
    fn new(rolls: Vec<u64>) -> Self {
        ScriptedRand { rolls, next: 0, bounds: Vec::new() }
    }
}

impl Rand for ScriptedRand {
    fn below(&mut self, upper_bound_excl: u64) -> u64 {
        self.bounds.push(upper_bound_excl);
        let roll = self.rolls[self.next % self.rolls.len()];
        self.next += 1;
        roll % upper_bound_excl
    }
}

/// A linear congruential generator.
struct Lcg(u64);

impl Rand for Lcg {
    fn below(&mut self, upper_bound_excl: u64) -> u64 {
        self.0 = self.0.wrapping_mul(6364136223846793005).wrapping_add(1442695040888963407);
        (self.0 >> 33) % upper_bound_excl
    }
}

struct Pool {
    entries: Vec<Bytes>,
    visits: usize,
}

impl Corpus<Bytes, ScriptedRand> for Pool {}

impl Corpus<Bytes, Lcg> for Pool {}

struct NoExecutor;

impl Executor<Bytes> for NoExecutor {}

/// Moves the first byte of the input `stage_idx + 1` letters on from `A`.
struct FlipFirst {
    log: Log,
    fail_mutate_at: Option<i32>,
    fail_post_exec_at: Option<i32>,
    produced: Vec<String>,
    told: Vec<Option<Rc<Testcase<Bytes>>>>,
}

impl FlipFirst {
    fn new(log: &Log) -> Self {
        FlipFirst {
            log: log.clone(),
            fail_mutate_at: None,
            fail_post_exec_at: None,
            produced: Vec::new(),
            told: Vec::new(),
        }
    }
}

impl<R: Rand> Mutator<Pool, Bytes, R> for FlipFirst
where
    Pool: Corpus<Bytes, R>,
{
    fn mutate(
        &mut self,
        _rand: &mut R,
        corpus: &mut Pool,
        input: &mut Bytes,
        stage_idx: i32,
    ) -> Result<(), AflError> {
        self.log.borrow_mut().push(format!("mutate {} {}", stage_idx, text(input)));
        corpus.visits += 1;
        if self.fail_mutate_at == Some(stage_idx) {
            return Err(AflError::MutatorFailure);
        }
        input.0[0] = b'A' + 1 + stage_idx as u8;
        self.produced.push(text(input));
        Ok(())
    }

    fn post_exec(
        &mut self,
        is_interesting: bool,
        new_testcase: Option<Rc<Testcase<Bytes>>>,
        stage_idx: i32,
    ) -> Result<(), AflError> {
        self.log.borrow_mut().push(format!(
            "post_exec {} {} {}",
            stage_idx,
            is_interesting,
            new_testcase.is_some()
        ));
        self.told.push(new_testcase);
        if self.fail_post_exec_at == Some(stage_idx) {
            return Err(AflError::MutatorFailure);
        }
        Ok(())
    }
}

#[derive(Clone, Copy)]
enum Verdict {
    Dull,
    Kept,
    InterestingNotKept,
    DullButKept,
    Fail,
}

/// Answers the evaluations with the verdicts it was made with, in order.
struct Judge {
    log: Log,
    corpus: Pool,
    verdicts: Vec<Verdict>,
    next: usize,
    admitted: Vec<Rc<Testcase<Bytes>>>,
}

impl Judge {
    fn new(log: &Log, verdicts: Vec<Verdict>) -> Self {
        Judge {
            log: log.clone(),
            corpus: Pool { entries: Vec::new(), visits: 0 },
            verdicts,
            next: 0,
            admitted: Vec::new(),
        }
    }

    fn take_in(&mut self, input: Bytes) -> Rc<Testcase<Bytes>> {
        self.corpus.entries.push(input.clone());
        let testcase = Rc::new(Testcase::new(input));
        self.admitted.push(testcase.clone());
        testcase
    }
}

impl<R: Rand> State<Pool, NoExecutor, Bytes, R> for Judge
where
    Pool: Corpus<Bytes, R>,
{
    fn corpus_mut(&mut self) -> &mut Pool {
        &mut self.corpus
    }

    fn evaluate_input(
        &mut self,
        input: Bytes,
    ) -> Result<(bool, Option<Rc<Testcase<Bytes>>>), AflError> {
        self.log.borrow_mut().push(format!("evaluate {}", text(&input)));
        let verdict = self.verdicts[self.next % self.verdicts.len()];
        self.next += 1;
        match verdict {
            Verdict::Dull => Ok((false, None)),
            Verdict::Kept => Ok((true, Some(self.take_in(input)))),
            Verdict::InterestingNotKept => Ok((true, None)),
            Verdict::DullButKept => Ok((false, Some(self.take_in(input)))),
            Verdict::Fail => Err(AflError::EvaluationFailure),
        }
    }
}

struct Outbox {
    log: Log,
    sent: Vec<Rc<Testcase<Bytes>>>,
    fail_at: Option<usize>,
    asked: usize,
}

impl Outbox {
    fn new(log: &Log) -> Self {
        Outbox { log: log.clone(), sent: Vec::new(), fail_at: None, asked: 0 }
    }
}

impl<R: Rand> EventManager<Judge, Pool, NoExecutor, Bytes, R> for Outbox
where
    Pool: Corpus<Bytes, R>,
{
    fn fire(&mut self, event: NewTestcaseEvent<Bytes>) -> Result<(), AflError> {
        let carried = event.testcase().load_input().map(text).unwrap();
        self.log.borrow_mut().push(format!("fire {}", carried));
        let turn = self.asked;
        self.asked += 1;
        if self.fail_at == Some(turn) {
            return Err(AflError::EventPublishFailure);
        }
        self.sent.push(event.testcase().clone());
        Ok(())
    }
}

/// A mutational stage with a fixed number of cycles.
struct FixedStage {
    mutator: FlipFirst,
    num: usize,
}

impl MutationalStage<FlipFirst, Judge, Outbox, NoExecutor, Pool, Bytes, ScriptedRand>
    for FixedStage
{
    fn mutator(&self) -> &FlipFirst {
        &self.mutator
    }

    fn mutator_mut(&mut self) -> &mut FlipFirst {
        &mut self.mutator
    }

    fn iterations(&mut self, _rand: &mut ScriptedRand) -> usize {
        self.num
    }
}

impl Stage<Judge, Outbox, NoExecutor, Pool, Bytes, ScriptedRand> for FixedStage {
    fn perform(
        &mut self,
        rand: &mut ScriptedRand,
        state: &mut Judge,
        events: &mut Outbox,
        testcase: Rc<Testcase<Bytes>>,
    ) -> Result<(), AflError> {
        self.perform_mutational(rand, state, events, testcase)
    }
}

type StdStage<R> = StdMutationalStage<FlipFirst, Judge, Outbox, NoExecutor, Pool, Bytes, R>;

fn base() -> Rc<Testcase<Bytes>> {
    Rc::new(Testcase::new(Bytes(b"AAAA".to_vec())))
}

fn strings(items: &[&str]) -> Vec<String> {
    items.iter().map(|s| s.to_string()).collect()
}

#[test]
fn default_iterations_stay_between_1_and_128() {
    let log = new_log();
    let mut stage: StdStage<Lcg> = StdMutationalStage::new(FlipFirst::new(&log));
    let mut seen = vec![false; 129];
    for seed in 0..64u64 {
        let mut rand = Lcg(seed);
        for _ in 0..64 {
            let num = stage.iterations(&mut rand);
            assert!(1 <= num && num <= 128, "seed {} gave {}", seed, num);
            seen[num] = true;
        }
    }
    assert!(!seen[0]);
    assert!(seen[1..].iter().all(|hit| *hit));
}

#[test]
fn default_iterations_are_one_more_than_the_roll() {
    let log = new_log();
    let mut stage: StdStage<ScriptedRand> = StdMutationalStage::new(FlipFirst::new(&log));
    let mut rand = ScriptedRand::new(vec![0, 127, 41, 128, 300]);
    assert_eq!(stage.iterations(&mut rand), 1);
    assert_eq!(stage.iterations(&mut rand), 128);
    assert_eq!(stage.iterations(&mut rand), 42);
    assert_eq!(stage.iterations(&mut rand), 1);
    assert_eq!(stage.iterations(&mut rand), 45);
    assert_eq!(rand.bounds, vec![128, 128, 128, 128, 128]);
}

#[test]
fn default_iterations_roll_anew_at_every_call() {
    let log = new_log();
    let mut stage: StdStage<ScriptedRand> = StdMutationalStage::new(FlipFirst::new(&log));
    let mut rand = ScriptedRand::new(vec![9, 9, 3]);
    assert_eq!(stage.iterations(&mut rand), 10);
    assert_eq!(stage.iterations(&mut rand), 10);
    assert_eq!(stage.iterations(&mut rand), 4);
    assert_eq!(rand.next, 3);
}

#[test]
fn three_cycles_flip_first_byte() {
    let log = new_log();
    let mut stage = FixedStage { mutator: FlipFirst::new(&log), num: 3 };
    let mut rand = ScriptedRand::new(vec![0]);
    let mut state = Judge::new(&log, vec![Verdict::Dull, Verdict::Kept, Verdict::Dull]);
    let mut events = Outbox::new(&log);
    let testcase = base();

    let res = stage.perform_mutational(&mut rand, &mut state, &mut events, testcase.clone());

    assert_eq!(res, Ok(()));
    assert_eq!(stage.mutator.produced, strings(&["BAAA", "CAAA", "DAAA"]));
    assert_eq!(
        lines(&log),
        strings(&[
            "mutate 0 AAAA",
            "evaluate BAAA",
            "post_exec 0 false false",
            "mutate 1 AAAA",
            "evaluate CAAA",
            "post_exec 1 true true",
            "fire CAAA",
            "mutate 2 AAAA",
            "evaluate DAAA",
            "post_exec 2 false false",
        ])
    );
    assert_eq!(events.sent.len(), 1);
    assert!(Rc::ptr_eq(&events.sent[0], &state.admitted[0]));
    assert_eq!(rand.next, 0);
}

#[test]
fn evaluation_failure_in_second_of_five_cycles_ends_the_run() {
    let log = new_log();
    let mut stage = FixedStage { mutator: FlipFirst::new(&log), num: 5 };
    let mut rand = ScriptedRand::new(vec![0]);
    let mut state = Judge::new(&log, vec![Verdict::Kept, Verdict::Fail, Verdict::Kept]);
    let mut events = Outbox::new(&log);

    let res = stage.perform_mutational(&mut rand, &mut state, &mut events, base());

    assert_eq!(res, Err(AflError::EvaluationFailure));
    assert_eq!(
        lines(&log),
        strings(&[
            "mutate 0 AAAA",
            "evaluate BAAA",
            "post_exec 0 true true",
            "fire BAAA",
            "mutate 1 AAAA",
            "evaluate CAAA",
        ])
    );
    assert_eq!(events.sent.len(), 1);
    assert_eq!(events.sent[0].load_input().map(text), Ok("BAAA".to_string()));
    assert_eq!(state.corpus.entries, vec![Bytes(b"BAAA".to_vec())]);
    assert_eq!(stage.mutator.told.len(), 1);
}

#[test]
fn every_cycle_calls_mutate_then_evaluate_then_post_exec() {
    for num in [1usize, 2, 7, 128] {
        let log = new_log();
        let mut stage = FixedStage { mutator: FlipFirst::new(&log), num };
        let mut rand = ScriptedRand::new(vec![0]);
        let mut state = Judge::new(&log, vec![Verdict::Dull]);
        let mut events = Outbox::new(&log);

        let res = stage.perform_mutational(&mut rand, &mut state, &mut events, base());

        assert_eq!(res, Ok(()));
        let seen = lines(&log);
        assert_eq!(seen.len(), 3 * num);
        for i in 0..num {
            assert_eq!(seen[3 * i], format!("mutate {} AAAA", i));
            assert!(seen[3 * i + 1].starts_with("evaluate "));
            assert_eq!(seen[3 * i + 2], format!("post_exec {} false false", i));
        }
        assert_eq!(state.corpus.visits, num);
        assert!(events.sent.is_empty());
    }
}

#[test]
fn event_is_fired_for_a_new_testcase_only() {
    let log = new_log();
    let mut stage = FixedStage { mutator: FlipFirst::new(&log), num: 4 };
    let mut rand = ScriptedRand::new(vec![0]);
    let mut state = Judge::new(
        &log,
        vec![Verdict::Kept, Verdict::InterestingNotKept, Verdict::Dull, Verdict::Kept],
    );
    let mut events = Outbox::new(&log);

    let res = stage.perform_mutational(&mut rand, &mut state, &mut events, base());

    assert_eq!(res, Ok(()));
    let fired: Vec<String> =
        lines(&log).into_iter().filter(|line| line.starts_with("fire")).collect();
    assert_eq!(fired, strings(&["fire BAAA", "fire EAAA"]));
    assert_eq!(events.sent.len(), 2);
    assert!(Rc::ptr_eq(&events.sent[0], &state.admitted[0]));
    assert!(Rc::ptr_eq(&events.sent[1], &state.admitted[1]));
}

#[test]
fn testcase_of_a_dull_verdict_is_announced_too() {
    let log = new_log();
    let mut stage = FixedStage { mutator: FlipFirst::new(&log), num: 1 };
    let mut rand = ScriptedRand::new(vec![0]);
    let mut state = Judge::new(&log, vec![Verdict::DullButKept]);
    let mut events = Outbox::new(&log);

    let res = stage.perform_mutational(&mut rand, &mut state, &mut events, base());

    assert_eq!(res, Ok(()));
    assert_eq!(
        lines(&log),
        strings(&["mutate 0 AAAA", "evaluate BAAA", "post_exec 0 false true", "fire BAAA"])
    );
}

#[test]
fn mutator_is_told_the_testcase_that_the_state_made() {
    let log = new_log();
    let mut stage = FixedStage { mutator: FlipFirst::new(&log), num: 2 };
    let mut rand = ScriptedRand::new(vec![0]);
    let mut state = Judge::new(&log, vec![Verdict::Kept, Verdict::Dull]);
    let mut events = Outbox::new(&log);

    let res = stage.perform_mutational(&mut rand, &mut state, &mut events, base());

    assert_eq!(res, Ok(()));
    assert_eq!(stage.mutator.told.len(), 2);
    assert!(Rc::ptr_eq(stage.mutator.told[0].as_ref().unwrap(), &state.admitted[0]));
    assert!(stage.mutator.told[1].is_none());
}

#[test]
fn base_testcase_is_the_same_after_a_run() {
    let log = new_log();
    let mut stage = FixedStage { mutator: FlipFirst::new(&log), num: 6 };
    let mut rand = ScriptedRand::new(vec![0]);
    let mut state = Judge::new(&log, vec![Verdict::Kept]);
    let mut events = Outbox::new(&log);
    let testcase = base();
    assert_eq!(testcase.load_input().map(text), Ok("AAAA".to_string()));

    let res = stage.perform_mutational(&mut rand, &mut state, &mut events, testcase.clone());

    assert_eq!(res, Ok(()));
    assert_eq!(testcase.load_input().map(text), Ok("AAAA".to_string()));
    assert_eq!(testcase.load_input(), Ok(&Bytes(b"AAAA".to_vec())));
    assert_eq!(
        stage.mutator.produced,
        strings(&["BAAA", "CAAA", "DAAA", "EAAA", "FAAA", "GAAA"])
    );
}

#[test]
fn missing_input_fails_before_anything_is_called() {
    let log = new_log();
    let mut stage = FixedStage { mutator: FlipFirst::new(&log), num: 4 };
    let mut rand = ScriptedRand::new(vec![0]);
    let mut state = Judge::new(&log, vec![Verdict::Kept]);
    let mut events = Outbox::new(&log);
    let testcase: Rc<Testcase<Bytes>> = Rc::new(Testcase::unavailable());

    let res = stage.perform_mutational(&mut rand, &mut state, &mut events, testcase);

    assert_eq!(res, Err(AflError::InputLoad));
    assert!(lines(&log).is_empty());
    assert!(events.sent.is_empty());
    assert_eq!(state.corpus.visits, 0);
    assert!(state.corpus.entries.is_empty());
}

#[test]
fn missing_input_fails_the_default_stage() {
    let log = new_log();
    let mut stage: StdStage<ScriptedRand> = StdMutationalStage::new(FlipFirst::new(&log));
    let mut rand = ScriptedRand::new(vec![77]);
    let mut state = Judge::new(&log, vec![Verdict::Kept]);
    let mut events = Outbox::new(&log);
    let testcase: Rc<Testcase<Bytes>> = Rc::new(Testcase::unavailable());

    let res = stage.perform(&mut rand, &mut state, &mut events, testcase);

    assert_eq!(res, Err(AflError::InputLoad));
    assert!(lines(&log).is_empty());
    assert_eq!(rand.bounds, vec![128]);
}

#[test]
fn mutate_failure_ends_the_run_before_the_evaluation() {
    let log = new_log();
    let mut mutator = FlipFirst::new(&log);
    mutator.fail_mutate_at = Some(2);
    let mut stage = FixedStage { mutator, num: 5 };
    let mut rand = ScriptedRand::new(vec![0]);
    let mut state = Judge::new(&log, vec![Verdict::Dull]);
    let mut events = Outbox::new(&log);

    let res = stage.perform_mutational(&mut rand, &mut state, &mut events, base());

    assert_eq!(res, Err(AflError::MutatorFailure));
    assert_eq!(
        lines(&log),
        strings(&[
            "mutate 0 AAAA",
            "evaluate BAAA",
            "post_exec 0 false false",
            "mutate 1 AAAA",
            "evaluate CAAA",
            "post_exec 1 false false",
            "mutate 2 AAAA",
        ])
    );
}

#[test]
fn post_exec_failure_ends_the_run_before_the_event() {
    let log = new_log();
    let mut mutator = FlipFirst::new(&log);
    mutator.fail_post_exec_at = Some(1);
    let mut stage = FixedStage { mutator, num: 3 };
    let mut rand = ScriptedRand::new(vec![0]);
    let mut state = Judge::new(&log, vec![Verdict::Kept]);
    let mut events = Outbox::new(&log);

    let res = stage.perform_mutational(&mut rand, &mut state, &mut events, base());

    assert_eq!(res, Err(AflError::MutatorFailure));
    assert_eq!(
        lines(&log),
        strings(&[
            "mutate 0 AAAA",
            "evaluate BAAA",
            "post_exec 0 true true",
            "fire BAAA",
            "mutate 1 AAAA",
            "evaluate CAAA",
            "post_exec 1 true true",
        ])
    );
    assert_eq!(events.sent.len(), 1);
    assert_eq!(
        state.corpus.entries,
        vec![Bytes(b"BAAA".to_vec()), Bytes(b"CAAA".to_vec())]
    );
}

#[test]
fn publish_failure_ends_the_run_and_keeps_the_testcase() {
    let log = new_log();
    let mut stage = FixedStage { mutator: FlipFirst::new(&log), num: 3 };
    let mut rand = ScriptedRand::new(vec![0]);
    let mut state = Judge::new(&log, vec![Verdict::Kept]);
    let mut events = Outbox::new(&log);
    events.fail_at = Some(1);

    let res = stage.perform_mutational(&mut rand, &mut state, &mut events, base());

    assert_eq!(res, Err(AflError::EventPublishFailure));
    assert_eq!(
        lines(&log),
        strings(&[
            "mutate 0 AAAA",
            "evaluate BAAA",
            "post_exec 0 true true",
            "fire BAAA",
            "mutate 1 AAAA",
            "evaluate CAAA",
            "post_exec 1 true true",
            "fire CAAA",
        ])
    );
    assert_eq!(events.sent.len(), 1);
    assert_eq!(state.admitted.len(), 2);
    assert_eq!(
        state.corpus.entries,
        vec![Bytes(b"BAAA".to_vec()), Bytes(b"CAAA".to_vec())]
    );
}

#[test]
fn default_stage_runs_as_many_cycles_as_it_rolled() {
    let log = new_log();
    let mut stage: StdStage<ScriptedRand> = StdMutationalStage::new(FlipFirst::new(&log));
    let mut rand = ScriptedRand::new(vec![4]);
    let mut state = Judge::new(&log, vec![Verdict::Dull]);
    let mut events = Outbox::new(&log);

    let res = stage.perform(&mut rand, &mut state, &mut events, base());

    assert_eq!(res, Ok(()));
    assert_eq!(rand.bounds, vec![128]);
    assert_eq!(
        stage.mutator().produced,
        strings(&["BAAA", "CAAA", "DAAA", "EAAA", "FAAA"])
    );
    assert_eq!(lines(&log).len(), 15);
}

#[test]
fn default_stage_perform_and_perform_mutational_agree() {
    let run = |through_perform: bool| {
        let log = new_log();
        let mut stage: StdStage<ScriptedRand> = StdMutationalStage::new(FlipFirst::new(&log));
        let mut rand = ScriptedRand::new(vec![2]);
        let mut state = Judge::new(&log, vec![Verdict::Kept, Verdict::Dull, Verdict::Fail]);
        let mut events = Outbox::new(&log);
        let res = if through_perform {
            stage.perform(&mut rand, &mut state, &mut events, base())
        } else {
            stage.perform_mutational(&mut rand, &mut state, &mut events, base())
        };
        (res, lines(&log))
    };
    let (res, seen) = run(true);
    assert_eq!(res, Err(AflError::EvaluationFailure));
    assert_eq!(seen.len(), 9);
    assert_eq!(run(false), (res, seen));
}

#[test]
fn default_stage_owns_the_mutator_it_was_made_with() {
    let log = new_log();
    let mut mutator = FlipFirst::new(&log);
    mutator.fail_mutate_at = Some(9);
    let mut stage: StdStage<ScriptedRand> = StdMutationalStage::new(mutator);
    assert_eq!(stage.mutator().fail_mutate_at, Some(9));
    stage.mutator_mut().fail_mutate_at = Some(3);
    assert_eq!(stage.mutator().fail_mutate_at, Some(3));
    assert!(stage.mutator().produced.is_empty());
}

#[test]
fn mutator_works_on_the_corpus_of_the_state() {
    let log = new_log();
    let mut stage = FixedStage { mutator: FlipFirst::new(&log), num: 3 };
    let mut rand = ScriptedRand::new(vec![0]);
    let mut state = Judge::new(&log, vec![Verdict::Kept]);
    let mut events = Outbox::new(&log);

    let res = stage.perform_mutational(&mut rand, &mut state, &mut events, base());

    assert_eq!(res, Ok(()));
    assert_eq!(state.corpus.visits, 3);
    assert_eq!(state.corpus.entries.len(), 3);
}

#[test]
fn default_iterations_are_as_even_as_the_rolls() {
    let log = new_log();
    let mut stage: StdStage<ScriptedRand> = StdMutationalStage::new(FlipFirst::new(&log));
    let mut rand = ScriptedRand::new((0..128).collect());
    let mut hits = vec![0usize; 129];
    for _ in 0..(128 * 3) {
        hits[stage.iterations(&mut rand)] += 1;
    }
    assert_eq!(hits[0], 0);
    assert!(hits[1..].iter().all(|count| *count == 3));
}
