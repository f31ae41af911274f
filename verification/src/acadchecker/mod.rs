//! A checker that compares what a solution wrote with what was expected,
//! from the build of the solution to the outcome of every test.

pub mod config;

use crate::acadchecker::config::{Config, Output};
use crate::checker::acad::{graded, inputs_of, Checker};
use crate::checker::config::CheckerConfig;
use crate::checker::Error;
use crate::language;
use crate::language::{BuildReport, BuildStepView, Invocation, InvocationView};
use crate::text::texts;
use std::collections::BTreeMap;
use vstd::prelude::*;

verus! {

/// The checker. It holds nothing: all it works with is handed to `run`.
#[derive(Debug, Clone, Copy)]
pub struct AcadChecker {}

/// The result of a run whose build ended in `error`.
pub fn failure(error: &language::Error) -> (output: Output)
    ensures
        output@ == crate::acadchecker::config::OutputView::Error(error@.text()),
{
    Output::Error(error.to_string())
}

/// Whether `output` holds the outcomes that `checker` can give for `command`
/// with `runner`: those of one answer of the runner, graded.
pub open spec fn is_report_of<I, O, F>(
    output: Output,
    checker: CheckerConfig<I, O>,
    runner: F,
    command: Seq<Seq<char>>,
) -> bool where
    O: crate::checker::config::PartialEq<O>,
    F: Fn(&Vec<String>, BTreeMap<usize, &I>) -> BTreeMap<usize, Result<O, Error>>,
 {
    output matches Output::Tests(outcomes) && exists|
        line: Vec<String>,
        inputs: BTreeMap<usize, &I>,
        results: BTreeMap<usize, Result<O, Error>>,
    |
        {
            &&& texts(line@) == command
            &&& inputs_of(inputs@, checker)
            &&& call_ensures(runner, (&line, inputs), results)
            &&& outcomes@.dom() == results@.dom()
            &&& forall|id: usize| #[trigger]
                results@.contains_key(id) ==> graded(
                    checker.output_type,
                    results@[id],
                    checker.in_refs@[id].1,
                    outcomes@[id]@,
                )
        }
}

/// Whether `output` is the error that the build `step` ends in for one of
/// the reports that `builder` can give of it.
pub open spec fn is_build_failure_of<B>(output: Output, step: BuildStepView, builder: B) -> bool where
    B: Fn(&Vec<String>) -> BuildReport,
 {
    output matches Output::Error(message) && exists|line: Vec<String>, report: BuildReport|
        {
            &&& texts(line@) == step.command
            &&& call_ensures(builder, (&line,), report)
            &&& step.finish(report) matches Err(error)
            &&& message@ == error.text()
        }
}

/// Whether `output` holds the outcomes of the tests for the command that
/// the build `step` ends in for one of the reports that `builder` can give
/// of it.
pub open spec fn is_report_after<I, O, B, F>(
    output: Output,
    step: BuildStepView,
    builder: B,
    checker: CheckerConfig<I, O>,
    runner: F,
) -> bool where
    O: crate::checker::config::PartialEq<O>,
    B: Fn(&Vec<String>) -> BuildReport,
    F: Fn(&Vec<String>, BTreeMap<usize, &I>) -> BTreeMap<usize, Result<O, Error>>,
 {
    exists|line: Vec<String>, report: BuildReport|
        {
            &&& texts(line@) == step.command
            &&& call_ensures(builder, (&line,), report)
            &&& step.finish(report) matches Ok(command)
            &&& is_report_of(output, checker, runner, command)
        }
}

impl AcadChecker {
    /// The checker.
    pub fn new() -> (checker: Self) {
        Self {  }
    }

    /// Runs the whole check: asks the language processor what has to be
    /// done, has `builder` run the build where there is one, and hands the
    /// command that comes of it to a checker with `runner`.
    ///
    /// The result is the error of the build, where the build failed, and
    /// no test is run then. It is otherwise the outcome of every test that
    /// the runner answered for; where the runner answers for each test that
    /// it is given, these are the tests of the configuration.
    ///
    /// `builder` and `runner` have to accept every command, and `runner` to
    /// answer for tests of the configuration only.
    pub fn run<I, O, B, F>(&self, config: Config<I, O>, builder: B, runner: F) -> (output:
        Output) where
        O: crate::checker::config::PartialEq<O>,
        B: Fn(&Vec<String>) -> BuildReport,
        F: Fn(&Vec<String>, BTreeMap<usize, &I>) -> BTreeMap<usize, Result<O, Error>>,

        requires
            forall|line: Vec<String>| call_requires(builder, (&line,)),
            forall|line: Vec<String>, inputs: BTreeMap<usize, &I>|
                inputs_of(inputs@, config.checker) ==> call_requires(runner, (&line, inputs)),
            forall|
                line: Vec<String>,
                inputs: BTreeMap<usize, &I>,
                results: BTreeMap<usize, Result<O, Error>>,
            |
                inputs_of(inputs@, config.checker) && call_ensures(runner, (&line, inputs), results)
                    ==> results@.dom().subset_of(config.checker.test_ids()),
        ensures
            match config.processor.spec_invocation(config.solution) {
                InvocationView::Ready(command) => is_report_of(
                    output,
                    config.checker,
                    runner,
                    command,
                ),
                InvocationView::Build(step) => is_build_failure_of(output, step, builder)
                    || is_report_after(output, step, builder, config.checker, runner),
            },
            (forall|
                line: Vec<String>,
                inputs: BTreeMap<usize, &I>,
                results: BTreeMap<usize, Result<O, Error>>,
            |
                inputs_of(inputs@, config.checker) && call_ensures(runner, (&line, inputs), results)
                    ==> results@.dom() == config.checker.test_ids()) ==> (output matches Output::Tests(
                outcomes,
            ) ==> outcomes@.dom() == config.checker.test_ids()),
    {
        let Config { checker, processor, solution, out_dir: _, security: _ } = config;
        let invocation = match processor.invocation(solution) {
            Ok(invocation) => invocation,
            Err(error) => {
                return failure(&error);
            },
        };
        let command = match invocation {
            Invocation::Ready(command) => command,
            Invocation::Build(step) => {
                let report = builder(&step.command);
                let ghost planned = step@;
                let ghost line = step.command;
                match step.finish(report) {
                    Ok(command) => {
                        proof {
                            assert(call_ensures(builder, (&line,), report));
                            assert(planned.finish(report) == Ok::<
                                Seq<Seq<char>>,
                                language::ErrorView,
                            >(texts(command@)));
                        }
                        let outcomes = Checker::new(checker, runner).run(&command);
                        let output = Output::Tests(outcomes);
                        proof {
                            assert(is_report_of(output, checker, runner, texts(command@)));
                            assert(is_report_after(output, planned, builder, checker, runner));
                        }
                        return output;
                    },
                    Err(error) => {
                        let output = failure(&error);
                        proof {
                            assert(call_ensures(builder, (&line,), report));
                            assert(planned.finish(report) == Err::<
                                Seq<Seq<char>>,
                                language::ErrorView,
                            >(error@));
                            assert(is_build_failure_of(output, planned, builder));
                        }
                        return output;
                    },
                }
            },
        };
        let outcomes = Checker::new(checker, runner).run(&command);
        let output = Output::Tests(outcomes);
        proof {
            assert(is_report_of(output, checker, runner, texts(command@)));
        }
        output
    }
}

} // verus!
