//! The checker itself: a configuration and the runner that it hands the
//! tests to.

use crate::checker::config::CheckerConfig;
use crate::checker::{
    outcome_of_comparison, outcome_of_error, Comparison, Error, OutputType, TestOutput,
    TestOutputView,
};
use crate::maps::lemma_walk_meets_all;
use std::collections::BTreeMap;
use vstd::prelude::*;
use vstd::std_specs::btree::*;
use vstd::std_specs::iter::IteratorSpec;

verus! {

/// The outcome of a test from what became of it: the error that its run
/// ended in, or the comparison of its output with the reference.
pub open spec fn outcome_of(output_type: OutputType, verdict: Result<Comparison, Error>) -> TestOutputView {
    match verdict {
        Ok(comparison) => outcome_of_comparison(
            output_type,
            comparison.equal,
            comparison.produced@,
            comparison.reference@,
        ),
        Err(error) => outcome_of_error(output_type, error.text()),
    }
}

/// Decides the outcome of one test from what became of it.
pub fn outcome(output_type: &OutputType, verdict: &Result<Comparison, Error>) -> (outcome:
    TestOutput)
    ensures
        outcome@ == outcome_of(*output_type, *verdict),
{
    match verdict {
        Ok(comparison) => TestOutput::from_comparison(output_type, comparison),
        Err(error) => TestOutput::from_error(output_type, error),
    }
}

/// Decides the outcome of every test in `verdicts`: the tests of the result
/// are those of `verdicts`, each with the outcome that its own verdict gives
/// and no other verdict bears on.
pub fn tabulate(output_type: &OutputType, verdicts: &BTreeMap<usize, Result<Comparison, Error>>) -> (outcomes:
    BTreeMap<usize, TestOutput>)
    ensures
        outcomes@.dom() == verdicts@.dom(),
        forall|id: usize| #[trigger]
            verdicts@.contains_key(id) ==> outcomes@[id]@ == outcome_of(*output_type, verdicts@[id]),
{
    let mut outcomes: BTreeMap<usize, TestOutput> = BTreeMap::new();
    assert(vstd::laws_cmp::obeys_cmp::<usize>());
    assert(key_obeys_cmp_spec::<usize>());
    for (id, verdict) in it: verdicts.iter()
        invariant
            it.seq() == spec_btree_map_iter(verdicts).remaining(),
            vstd::laws_cmp::obeys_cmp::<usize>(),
            forall|id: usize| #[trigger]
                outcomes@.contains_key(id) ==> verdicts@.contains_key(id) && outcomes@[id]@
                    == outcome_of(*output_type, verdicts@[id]),
            forall|i: int|
                0 <= i < it.index() ==> outcomes@.contains_key(*(#[trigger] it.seq()[i]).0),
    {
        assert(verdicts@.contains_key(*id) && verdicts@[*id] == *verdict);
        let one = outcome(output_type, verdict);
        outcomes.insert(*id, one);
    }
    proof {
        lemma_walk_meets_all(verdicts, outcomes@.dom());
    }
    assert(outcomes@.dom() =~= verdicts@.dom());
    outcomes
}

/// Whether `outcome` can be the outcome of a test whose run gave `result`
/// and whose reference is `reference`: for an error, the one outcome that
/// the error gives; for an output, one that an answer of its comparison
/// with the reference gives.
pub open spec fn graded<O: crate::checker::config::PartialEq<O>>(
    output_type: OutputType,
    result: Result<O, Error>,
    reference: O,
    outcome: TestOutputView,
) -> bool {
    match result {
        Err(error) => outcome == outcome_of_error(output_type, error.text()),
        Ok(produced) => exists|equal: bool, shown_produced: Seq<char>, shown_reference: Seq<char>|
            #![auto]
            produced.compares(&reference, equal, shown_produced, shown_reference) && outcome
                == outcome_of_comparison(output_type, equal, shown_produced, shown_reference),
    }
}

/// Whether `inputs` holds the input of every test of `config`, and nothing
/// else.
pub open spec fn inputs_of<I, O>(inputs: Map<usize, &I>, config: CheckerConfig<I, O>) -> bool {
    &&& inputs.dom() == config.test_ids()
    &&& forall|id: usize| #[trigger] inputs.contains_key(id) ==> *inputs[id] == config.in_refs@[id].0
}

/// Decides the outcome of every test in `results`, which is what a runner
/// brought back: an error gives a failure, and an output is compared with
/// the reference of its test.
pub fn grade<I, O>(config: &CheckerConfig<I, O>, results: &BTreeMap<usize, Result<O, Error>>) -> (outcomes:
    BTreeMap<usize, TestOutput>) where O: crate::checker::config::PartialEq<O>
    requires
        results@.dom().subset_of(config.test_ids()),
    ensures
        outcomes@.dom() == results@.dom(),
        forall|id: usize| #[trigger]
            results@.contains_key(id) ==> graded(
                config.output_type,
                results@[id],
                config.in_refs@[id].1,
                outcomes@[id]@,
            ),
{
    let mut outcomes: BTreeMap<usize, TestOutput> = BTreeMap::new();
    assert(vstd::laws_cmp::obeys_cmp::<usize>());
    assert(key_obeys_cmp_spec::<usize>());
    for (id, result) in it: results.iter()
        invariant
            it.seq() == spec_btree_map_iter(results).remaining(),
            vstd::laws_cmp::obeys_cmp::<usize>(),
            results@.dom().subset_of(config.test_ids()),
            forall|id: usize| #[trigger]
                outcomes@.contains_key(id) ==> results@.contains_key(id) && graded(
                    config.output_type,
                    results@[id],
                    config.in_refs@[id].1,
                    outcomes@[id]@,
                ),
            forall|i: int|
                0 <= i < it.index() ==> outcomes@.contains_key(*(#[trigger] it.seq()[i]).0),
    {
        assert(results@.contains_key(*id) && results@[*id] == *result);
        assert(config.in_refs@.contains_key(*id));
        let one = match result {
            Ok(produced) => {
                match config.in_refs.get(id) {
                    Some(pair) => {
                        let mut shown_produced = String::new();
                        let mut shown_reference = String::new();
                        let equal = crate::checker::config::PartialEq::ceq(
                            produced,
                            &pair.1,
                            &mut shown_produced,
                            &mut shown_reference,
                        );
                        let comparison = Comparison {
                            equal,
                            produced: shown_produced,
                            reference: shown_reference,
                        };
                        proof {
                            assert(*pair == config.in_refs@[*id]);
                            let (shown_self, shown_other) = choose|
                                shown_self: Seq<char>,
                                shown_other: Seq<char>,
                            |
                                {
                                    &&& shown_produced@ == Seq::<char>::empty() + shown_self
                                    &&& shown_reference@ == Seq::<char>::empty() + shown_other
                                    &&& produced.compares(&pair.1, equal, shown_self, shown_other)
                                };
                            assert(shown_produced@ =~= shown_self);
                            assert(shown_reference@ =~= shown_other);
                        }
                        TestOutput::from_comparison(&config.output_type, &comparison)
                    },
                    None => {
                        proof {
                            assert(false);
                        }
                        TestOutput::Passed
                    },
                }
            },
            Err(error) => TestOutput::from_error(&config.output_type, error),
        };
        outcomes.insert(*id, one);
    }
    proof {
        lemma_walk_meets_all(results, outcomes@.dom());
    }
    assert(outcomes@.dom() =~= results@.dom());
    outcomes
}

/// The input of every test of `config`, by the test's number.
pub fn inputs<I, O>(config: &CheckerConfig<I, O>) -> (inputs: BTreeMap<usize, &I>)
    ensures
        inputs_of(inputs@, *config),
{
    let mut inputs: BTreeMap<usize, &I> = BTreeMap::new();
    assert(vstd::laws_cmp::obeys_cmp::<usize>());
    assert(key_obeys_cmp_spec::<usize>());
    for (id, pair) in it: config.in_refs.iter()
        invariant
            it.seq() == spec_btree_map_iter(&config.in_refs).remaining(),
            vstd::laws_cmp::obeys_cmp::<usize>(),
            forall|id: usize| #[trigger]
                inputs@.contains_key(id) ==> config.in_refs@.contains_key(id) && *inputs@[id]
                    == config.in_refs@[id].0,
            forall|i: int|
                0 <= i < it.index() ==> inputs@.contains_key(*(#[trigger] it.seq()[i]).0),
    {
        assert(config.in_refs@.contains_key(*id) && config.in_refs@[*id] == *pair);
        inputs.insert(*id, &pair.0);
    }
    proof {
        lemma_walk_meets_all(&config.in_refs, inputs@.dom());
    }
    assert(inputs@.dom() =~= config.test_ids());
    inputs
}

/// A checker: a configuration, and the runner that runs a command on the
/// input of every test and brings back, for each test, what the command
/// produced or the error that its run ended in.
pub struct Checker<I, O, F> {
    pub config: CheckerConfig<I, O>,
    pub runner: F,
}

impl<I, O, F> Checker<I, O, F> where
    O: crate::checker::config::PartialEq<O>,
    F: Fn(&Vec<String>, BTreeMap<usize, &I>) -> BTreeMap<usize, Result<O, Error>>,
 {
    /// A checker of `config` that runs the tests with `runner`.
    pub fn new(config: CheckerConfig<I, O>, runner: F) -> (checker: Self)
        ensures
            checker.config == config,
            checker.runner == runner,
    {
        Self { config, runner }
    }

    /// Runs `command` on the tests, by one call of the runner with the
    /// inputs of all of them, and decides the outcome of every test that the
    /// runner answers for.
    ///
    /// The runner has to accept the command with those inputs and to answer
    /// for tests of the configuration only. Where it answers for each of
    /// them, so does the result.
    pub fn run(self, command: &Vec<String>) -> (outcomes: BTreeMap<usize, TestOutput>)
        requires
            forall|inputs: BTreeMap<usize, &I>|
                inputs_of(inputs@, self.config) ==> call_requires(
                    self.runner,
                    (command, inputs),
                ),
            forall|inputs: BTreeMap<usize, &I>, results: BTreeMap<usize, Result<O, Error>>|
                inputs_of(inputs@, self.config) && call_ensures(
                    self.runner,
                    (command, inputs),
                    results,
                ) ==> results@.dom().subset_of(self.config.test_ids()),
        ensures
            exists|inputs: BTreeMap<usize, &I>, results: BTreeMap<usize, Result<O, Error>>|
                {
                    &&& inputs_of(inputs@, self.config)
                    &&& call_ensures(self.runner, (command, inputs), results)
                    &&& outcomes@.dom() == results@.dom()
                    &&& forall|id: usize| #[trigger]
                        results@.contains_key(id) ==> graded(
                            self.config.output_type,
                            results@[id],
                            self.config.in_refs@[id].1,
                            outcomes@[id]@,
                        )
                },
            (forall|inputs: BTreeMap<usize, &I>, results: BTreeMap<usize, Result<O, Error>>|
                inputs_of(inputs@, self.config) && call_ensures(
                    self.runner,
                    (command, inputs),
                    results,
                ) ==> results@.dom() == self.config.test_ids()) ==> outcomes@.dom()
                == self.config.test_ids(),
    {
        let inputs = inputs(&self.config);
        let ghost handed = inputs;
        let results = (self.runner)(command, inputs);
        assert(call_ensures(self.runner, (command, handed), results));
        grade(&self.config, &results)
    }
}

} // verus!
